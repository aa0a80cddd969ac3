//! Status lines of the download helper: the share downloaded, and the markers
//! that name the file it writes.
use vstd::prelude::*;
use vstd::string::{StrSliceExecFns, StringExecFns};
use crate::scan::{
    digits_at, fraction_millis, digits_value, has_key_at, key_at, run_end, run_len,
    CharClass,
};
use crate::textlist::{contains, has_sub};

verus! {

/// The first occurrence of `t` in `s` at or after `k`.
pub open spec fn find_from(s: Seq<char>, t: Seq<char>, k: int) -> Option<int>
    decreases s.len() + 1 - k,
{
    if k < 0 || k > s.len() {
        None
    } else if key_at(s, k, t) {
        Some(k)
    } else {
        find_from(s, t, k + 1)
    }
}

/// The second piece of `s` split at `t` (`t` not empty): from the end of its
/// first occurrence to the start of the next one, or to the end.
pub open spec fn second_piece(s: Seq<char>, t: Seq<char>) -> Option<Seq<char>> {
    match find_from(s, t, 0) {
        None => None,
        Some(i) => {
            let from = i + t.len();
            match find_from(s, t, from) {
                Some(j) => Some(s.subrange(from, j)),
                None => Some(s.subrange(from, s.len() as int)),
            }
        },
    }
}

/// The first piece of `s` split at `t`: up to its first occurrence, or all.
pub open spec fn first_piece(s: Seq<char>, t: Seq<char>) -> Seq<char> {
    match find_from(s, t, 0) {
        Some(i) => s.subrange(0, i),
        None => s,
    }
}

/// The number of white space characters at the end of `s[..n]`.
pub open spec fn trailing_space(s: Seq<char>, n: int) -> nat
    decreases n,
{
    if n <= 0 || n > s.len() || !crate::scan::is_space(s[n - 1]) {
        0
    } else {
        1 + trailing_space(s, n - 1)
    }
}

/// `s` without white space at either end.
pub open spec fn trimmed(s: Seq<char>) -> Seq<char> {
    let lo = run_len(s, 0, CharClass::Space);
    if lo >= s.len() {
        Seq::empty()
    } else {
        s.subrange(lo as int, s.len() - trailing_space(s, s.len() as int))
    }
}

/// The percentage at `i`: digits, optionally a point and more digits, then
/// `%`; as the digit texts before and after the point.
pub open spec fn percent_at(s: Seq<char>, i: int) -> Option<(Seq<char>, Seq<char>)> {
    let n = run_len(s, i, CharClass::Digit);
    let p = i + n;
    if n == 0 {
        None
    } else if p < s.len() && s[p] == '%' {
        Some((s.subrange(i, p), Seq::empty()))
    } else if p < s.len() && s[p] == '.' {
        let q = p + 1 + run_len(s, p + 1, CharClass::Digit);
        if q < s.len() && s[q] == '%' {
            Some((s.subrange(i, p), s.subrange(p + 1, q)))
        } else {
            None
        }
    } else {
        None
    }
}

/// The leftmost percentage in `s` from `i`.
pub open spec fn find_percent(s: Seq<char>, i: int) -> Option<(Seq<char>, Seq<char>)>
    decreases s.len() + 1 - i,
{
    if i < 0 || i > s.len() {
        None
    } else if percent_at(s, i) is Some {
        percent_at(s, i)
    } else {
        find_percent(s, i + 1)
    }
}

/// A percentage in thousandths of a percent.
pub open spec fn percent_value(p: (Seq<char>, Seq<char>)) -> nat {
    digits_value(p.0) * 1000 + fraction_millis(p.1)
}

/// What one line of the download helper tells.
#[derive(Debug)]
pub struct DownloadLine {
    /// The share downloaded, in thousandths of a percent.
    pub percent: Option<u64>,
    /// The file the download goes to, where the line names it.
    pub file: Option<String>,
}

/// The file that the markers of a line name: the destination, or a file
/// already downloaded; a merge target overrides either.
pub open spec fn named_file(s: Seq<char>) -> Option<Seq<char>> {
    let merged = match second_piece(s, "into \""@) {
        Some(p) => Some(trimmed(first_piece(p, "\""@))),
        None => None,
    };
    let earlier = if has_sub(s, "Destination: "@) {
        match second_piece(s, "Destination: "@) {
            Some(p) => Some(trimmed(p)),
            None => None,
        }
    } else if has_sub(s, "has already been downloaded"@) {
        match second_piece(s, "] "@) {
            Some(p) => Some(trimmed(first_piece(p, " has"@))),
            None => None,
        }
    } else {
        None
    };
    if has_sub(s, "Merging formats into"@) && merged is Some {
        merged
    } else {
        earlier
    }
}

/// The leftmost percentage of a line, where it fits in `u64`.
pub open spec fn line_percent(s: Seq<char>) -> Option<nat> {
    match find_percent(s, 0) {
        Some(p) => if percent_value(p) <= u64::MAX { Some(percent_value(p)) } else { None },
        None => None,
    }
}

fn find_from_exec(s: &str, len: usize, t: &str, k: usize) -> (r: Option<usize>)
    requires
        len == s@.len(),
        k <= len,
    ensures
        match r {
            Some(i) => find_from(s@, t@, k as int) == Some(i as int) && k <= i && i + t@.len() <= len,
            None => find_from(s@, t@, k as int) is None,
        },
{
    let mut i = k;
    loop
        invariant
            len == s@.len(),
            k <= i <= len,
            find_from(s@, t@, k as int) == find_from(s@, t@, i as int),
        decreases len - i,
    {
        if has_key_at(s, len, i, t) {
            return Some(i);
        }
        if i == len {
            return None;
        }
        i = i + 1;
    }
}

fn second_piece_exec<'a>(s: &'a str, t: &str) -> (r: Option<&'a str>)
    ensures
        match second_piece(s@, t@) {
            Some(p) => r is Some && r->0@ == p,
            None => r is None,
        },
{
    let len = s.unicode_len();
    match find_from_exec(s, len, t, 0) {
        None => None,
        Some(i) => {
            let from = i + t.unicode_len();
            match find_from_exec(s, len, t, from) {
                Some(j) => Some(s.substring_char(from, j)),
                None => Some(s.substring_char(from, len)),
            }
        },
    }
}

fn first_piece_exec<'a>(s: &'a str, t: &str) -> (r: &'a str)
    ensures
        r@ == first_piece(s@, t@),
{
    let len = s.unicode_len();
    match find_from_exec(s, len, t, 0) {
        Some(i) => s.substring_char(0, i),
        None => s,
    }
}

/// `s` without white space at either end.
pub fn trim(s: &str) -> (r: String)
    ensures
        r@ == trimmed(s@),
{
    let len = s.unicode_len();
    let lo = run_end(s, len, 0, CharClass::Space);
    if lo >= len {
        return String::new();
    }
    proof {
        crate::scan::lemma_run_stops(s@, 0, CharClass::Space);
    }
    let mut hi = len;
    while hi > lo && crate::scan::class_has(s.get_char(hi - 1), CharClass::Space)
        invariant
            len == s@.len(),
            lo < len,
            lo < hi <= len,
            !crate::scan::is_space(s@[lo as int]),
            trailing_space(s@, len as int) == (len - hi) + trailing_space(s@, hi as int),
        decreases hi,
    {
        hi = hi - 1;
    }
    String::from_str(s.substring_char(lo, hi))
}

fn read_percent(s: &str, len: usize, i: usize) -> (r: Option<Option<u64>>)
    requires
        len == s@.len(),
        i <= len,
    ensures
        match percent_at(s@, i as int) {
            None => r is None,
            Some(p) => match r {
                None => false,
                Some(Some(v)) => v == percent_value(p),
                Some(None) => percent_value(p) > u64::MAX,
            },
        },
{
    let p = run_end(s, len, i, CharClass::Digit);
    if p == i || p >= len {
        return None;
    }
    proof {
        crate::scan::lemma_run_in_class(s@, i as int, CharClass::Digit);
    }
    let c = s.get_char(p);
    let (f_from, f_to) = if c == '%' {
        (p, p)
    } else if c == '.' {
        let q = run_end(s, len, p + 1, CharClass::Digit);
        if q >= len || s.get_char(q) != '%' {
            return None;
        }
        proof {
            crate::scan::lemma_run_in_class(s@, p + 1, CharClass::Digit);
        }
        (p + 1, q)
    } else {
        return None;
    };
    let ghost pc = percent_at(s@, i as int)->0;
    assert(pc.1 =~= s@.subrange(f_from as int, f_to as int));
    let f_take = if f_to - f_from > 3 { f_from + 3 } else { f_to };
    if f_to - f_from >= 3 {
        assert(pc.1.take(3) =~= s@.subrange(f_from as int, f_take as int));
    }
    let whole = digits_at(s, len, i, p);
    let frac = digits_at(s, len, f_from, f_take);
    match (whole, frac) {
        (Some(w), Some(f)) => {
            let fm: u128 = if f_to - f_from == 1 {
                f as u128 * 100
            } else if f_to - f_from == 2 {
                f as u128 * 10
            } else {
                assert(f_to - f_from == 0 ==> f == 0);
                f as u128
            };
            let v: u128 = w as u128 * 1000 + fm;
            if v > u64::MAX as u128 {
                Some(None)
            } else {
                Some(Some(v as u64))
            }
        },
        _ => Some(None),
    }
}

fn first_percent(s: &str) -> (r: Option<u64>)
    ensures
        r == match line_percent(s@) {
            Some(v) => Some(v as u64),
            None => None::<u64>,
        },
{
    let len = s.unicode_len();
    let mut i: usize = 0;
    loop
        invariant
            len == s@.len(),
            i <= len,
            find_percent(s@, 0) == find_percent(s@, i as int),
        decreases len - i,
    {
        match read_percent(s, len, i) {
            Some(Some(v)) => {
                return Some(v);
            },
            Some(None) => {
                return None;
            },
            None => {},
        }
        if i == len {
            return None;
        }
        i = i + 1;
    }
}

/// Reads a line of the download helper. Only lines that start with
/// `[download]` tell anything.
pub fn parse_download_line(line: &str) -> (r: DownloadLine)
    ensures
        !key_at(line@, 0, "[download]"@) ==> r.percent is None && r.file is None,
        key_at(line@, 0, "[download]"@) ==> {
            &&& r.percent == match line_percent(line@) {
                Some(v) => Some(v as u64),
                None => None::<u64>,
            }
            &&& match named_file(line@) {
                Some(f) => r.file is Some && r.file->0@ == f,
                None => r.file is None,
            }
        },
{
    let len = line.unicode_len();
    if !has_key_at(line, len, 0, "[download]") {
        return DownloadLine { percent: None, file: None };
    }
    let percent = first_percent(line);
    let mut file: Option<String> = None;
    if contains(line, "Destination: ") {
        if let Some(p) = second_piece_exec(line, "Destination: ") {
            file = Some(trim(p));
        }
    } else if contains(line, "has already been downloaded") {
        if let Some(p) = second_piece_exec(line, "] ") {
            file = Some(trim(first_piece_exec(p, " has")));
        }
    }
    if contains(line, "Merging formats into") {
        if let Some(p) = second_piece_exec(line, "into \"") {
            file = Some(trim(first_piece_exec(p, "\"")));
        }
    }
    DownloadLine { percent, file }
}

/// The result of a finished download: the file last named, or a note to look
/// in the output folder where no line named one.
pub fn download_result(last_file: &str) -> (r: String)
    ensures
        last_file@.len() == 0 ==> r@ == "Download complete (check output folder)"@,
        last_file@.len() > 0 ==> r@ == last_file@,
{
    if last_file.is_empty() {
        String::from_str("Download complete (check output folder)")
    } else {
        String::from_str(last_file)
    }
}

} // verus!
