//! Media information from the fields that a probe of a file reports.
use vstd::prelude::*;
use vstd::string::{StrSliceExecFns, StringExecFns};
use crate::models::MediaInfo;
use crate::scan::{digits_at, digits_value, fraction_millis, run_end, run_len, CharClass};

verus! {

/// One stream of a probed file, as the probe reports it.
#[derive(Clone, Debug)]
pub struct ProbeStream {
    pub codec_type: Option<String>,
    pub codec_name: Option<String>,
    pub width: Option<u64>,
    pub height: Option<u64>,
}

/// A text that is wholly a decimal number `D+[.D*]`: its value in
/// thousandths (digits past the third decimal dropped).
pub open spec fn decimal_millis(s: Seq<char>) -> Option<nat> {
    let n = run_len(s, 0, CharClass::Digit) as int;
    if n == 0 {
        None
    } else if n == s.len() {
        Some(digits_value(s) * 1000)
    } else if s[n] == '.' && n + 1 + run_len(s, n + 1, CharClass::Digit) == s.len() {
        Some(digits_value(s.subrange(0, n)) * 1000 + fraction_millis(
            s.subrange(n + 1, s.len() as int),
        ))
    } else {
        None
    }
}

/// A duration text in seconds, in thousandths; 0 where it is missing, is no
/// decimal number, or exceeds `u64`.
pub open spec fn duration_of(t: Option<String>) -> nat {
    match t {
        Some(s) => match decimal_millis(s@) {
            Some(v) => if v <= u64::MAX { v } else { 0 },
            None => 0,
        },
        None => 0,
    }
}

/// A bit rate text: its value where it is all digits and fits in `u64`.
pub open spec fn bitrate_of(t: Option<String>) -> Option<u64> {
    match t {
        Some(s) => if s@.len() > 0 && run_len(s@, 0, CharClass::Digit) == s@.len()
            && digits_value(s@) <= u64::MAX {
            Some(digits_value(s@) as u64)
        } else {
            None
        },
        None => None,
    }
}

pub open spec fn is_kind(s: ProbeStream, kind: Seq<char>) -> bool {
    match s.codec_type {
        Some(t) => t@ == kind,
        None => kind.len() == 0,
    }
}

/// A dimension as the library keeps it: the low 32 bits.
pub open spec fn dim_of(d: Option<u64>) -> Option<u32> {
    match d {
        Some(v) => Some(v as u32),
        None => None,
    }
}

/// The last stream of `kind` among the first `n`.
pub open spec fn last_of_kind(streams: Seq<ProbeStream>, kind: Seq<char>, n: int) -> Option<
    ProbeStream,
>
    decreases n,
{
    if n <= 0 || n > streams.len() {
        None
    } else if is_kind(streams[n - 1], kind) {
        Some(streams[n - 1])
    } else {
        last_of_kind(streams, kind, n - 1)
    }
}

/// The file name extension: what follows the last `.`, or the whole path.
pub open spec fn extension(path: Seq<char>, n: int) -> Seq<char>
    decreases n,
{
    if n <= 0 || n > path.len() {
        path
    } else if path[n - 1] == '.' {
        path.subrange(n, path.len() as int)
    } else {
        extension(path, n - 1)
    }
}

/// What `str::to_uppercase` gives for a text.
pub uninterp spec fn upper_of(s: Seq<char>) -> Seq<char>;

/// Relies on `str::to_uppercase`: the upper case of each character, by
/// Unicode's rules, a function of the text alone.
#[verifier::external_body]
fn uppercase(s: &str) -> (r: String)
    ensures
        r@ == upper_of(s@),
{
    s.to_uppercase()
}

fn decimal_exec(s: &str) -> (r: u64)
    ensures
        r == match decimal_millis(s@) {
            Some(v) => if v <= u64::MAX { v } else { 0 },
            None => 0,
        },
{
    let len = s.unicode_len();
    let n = run_end(s, len, 0, CharClass::Digit);
    if n == 0 {
        return 0;
    }
    proof {
        crate::scan::lemma_run_in_class(s@, 0, CharClass::Digit);
    }
    let (f_from, f_to) = if n == len {
        (n, n)
    } else if s.get_char(n) == '.' {
        let e = run_end(s, len, n + 1, CharClass::Digit);
        if e != len {
            return 0;
        }
        proof {
            crate::scan::lemma_run_in_class(s@, n + 1, CharClass::Digit);
        }
        (n + 1, e)
    } else {
        return 0;
    };
    if n == len {
        assert(s@.subrange(0, n as int) =~= s@);
    }
    let ghost fr = s@.subrange(f_from as int, f_to as int);
    let f_take = if f_to - f_from > 3 { f_from + 3 } else { f_to };
    if f_to - f_from >= 3 {
        assert(fr.take(3) =~= s@.subrange(f_from as int, f_take as int));
    }
    match (digits_at(s, len, 0, n), digits_at(s, len, f_from, f_take)) {
        (Some(w), Some(f)) => {
            let fm: u128 = if f_to - f_from == 1 {
                f as u128 * 100
            } else if f_to - f_from == 2 {
                f as u128 * 10
            } else {
                f as u128
            };
            let v: u128 = w as u128 * 1000 + fm;
            if v > u64::MAX as u128 {
                0
            } else {
                v as u64
            }
        },
        _ => 0,
    }
}

fn bitrate_exec(t: &Option<String>) -> (r: Option<u64>)
    ensures
        r == bitrate_of(*t),
{
    match t {
        None => None,
        Some(s) => {
            let s = s.as_str();
            let len = s.unicode_len();
            if len == 0 || run_end(s, len, 0, CharClass::Digit) != len {
                return None;
            }
            proof {
                crate::scan::lemma_run_in_class(s@, 0, CharClass::Digit);
                assert(s@.subrange(0, len as int) =~= s@);
            }
            digits_at(s, len, 0, len)
        },
    }
}

fn extension_exec(path: &str) -> (r: &str)
    ensures
        r@ == extension(path@, path@.len() as int),
{
    let len = path.unicode_len();
    let mut n = len;
    while n > 0 && path.get_char(n - 1) != '.'
        invariant
            len == path@.len(),
            n <= len,
            extension(path@, len as int) == extension(path@, n as int),
        decreases n,
    {
        n = n - 1;
    }
    if n == 0 {
        path
    } else {
        path.substring_char(n, len)
    }
}

fn kind_is(s: &ProbeStream, kind: &str) -> (r: bool)
    ensures
        r == is_kind(*s, kind@),
{
    match &s.codec_type {
        Some(t) => crate::invocation::eq_str(t.as_str(), kind),
        None => kind.unicode_len() == 0,
    }
}

/// The media information of a probed file: the duration in thousandths of a
/// second, the bit rate, the dimensions and codec of the last video stream,
/// the codec of the last audio stream, and the path's extension in upper case
/// as its format.
pub fn media_info_from_probe(
    path: &str,
    duration: &Option<String>,
    bit_rate: &Option<String>,
    streams: &Vec<ProbeStream>,
) -> (r: MediaInfo)
    ensures
        r.duration == duration_of(*duration),
        r.bitrate == bitrate_of(*bit_rate),
        match last_of_kind(streams@, "video"@, streams@.len() as int) {
            Some(v) => r.width == dim_of(v.width) && r.height == dim_of(v.height) && match v.codec_name {
                Some(c) => r.codec is Some && r.codec->0@ == c@,
                None => r.codec is None,
            },
            None => r.width is None && r.height is None && r.codec is None,
        },
        match last_of_kind(streams@, "audio"@, streams@.len() as int) {
            Some(a) => match a.codec_name {
                Some(c) => r.audio_codec is Some && r.audio_codec->0@ == c@,
                None => r.audio_codec is None,
            },
            None => r.audio_codec is None,
        },
        r.format is Some && r.format->0@ == upper_of(extension(path@, path@.len() as int)),
{
    let d = match duration {
        Some(s) => decimal_exec(s.as_str()),
        None => 0,
    };
    let mut width: Option<u32> = None;
    let mut height: Option<u32> = None;
    let mut codec: Option<String> = None;
    let mut audio_codec: Option<String> = None;
    let mut i: usize = 0;
    while i < streams.len()
        invariant
            i <= streams@.len(),
            match last_of_kind(streams@, "video"@, i as int) {
                Some(v) => width == dim_of(v.width) && height == dim_of(v.height) && match v.codec_name {
                    Some(c) => codec is Some && codec->0@ == c@,
                    None => codec is None,
                },
                None => width is None && height is None && codec is None,
            },
            match last_of_kind(streams@, "audio"@, i as int) {
                Some(a) => match a.codec_name {
                    Some(c) => audio_codec is Some && audio_codec->0@ == c@,
                    None => audio_codec is None,
                },
                None => audio_codec is None,
            },
        decreases streams@.len() - i,
    {
        let s = &streams[i];
        proof {
            reveal_strlit("video");
            reveal_strlit("audio");
            assert("video"@[0] != "audio"@[0]);
        }
        let video = kind_is(s, "video");
        let audio = kind_is(s, "audio");
        if video {
            width = match s.width {
                Some(w) => Some(w as u32),
                None => None,
            };
            height = match s.height {
                Some(h) => Some(h as u32),
                None => None,
            };
            codec = match &s.codec_name {
                Some(c) => Some(String::from_str(c.as_str())),
                None => None,
            };
        } else if audio {
            audio_codec = match &s.codec_name {
                Some(c) => Some(String::from_str(c.as_str())),
                None => None,
            };
        }
        i = i + 1;
    }
    MediaInfo {
        duration: d,
        width,
        height,
        codec,
        audio_codec,
        format: Some(uppercase(extension_exec(path))),
        bitrate: bitrate_exec(bit_rate),
    }
}

} // verus!
