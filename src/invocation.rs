//! The argument lists of the external tool's invocations: conversion, preview
//! of one frame, and concatenation of several files.
use vstd::prelude::*;
use vstd::string::{StrSliceExecFns, StringExecFns};
use crate::filters::{build_filter_chain, filter_args, image_of};
use crate::models::ConvertOptions;
use crate::text::{centi_text, milli_fixed_text, nat_text, render_centi, render_milli_fixed, render_nat};
use crate::textlist::{escape, escaped, has_sub, push_text, texts, Escape, contains};

verus! {

/// A flag and the value of an optional setting, where it is set.
pub open spec fn opt_pair(flag: Seq<char>, v: Option<String>) -> Seq<Seq<char>> {
    match v {
        Some(x) => seq![flag, x@],
        None => Seq::empty(),
    }
}

/// A trim position (thousandths of a second) as the tool takes it: seconds
/// with two decimals, rounded.
pub open spec fn seek_text(t: u64) -> Seq<char> {
    centi_text((t + 5) / 10)
}

/// The second input, the overlay image, where there is one.
pub open spec fn image_input(o: ConvertOptions) -> Seq<Seq<char>> {
    match image_of(o) {
        Some(img) => seq!["-i"@, img.path@],
        None => Seq::empty(),
    }
}

/// Everything before the filter arguments of a conversion.
pub open spec fn convert_head(o: ConvertOptions) -> Seq<Seq<char>> {
    (if o.hw_accel == Some(true) { seq!["-hwaccel"@, "auto"@] } else { Seq::empty() })
        + seq!["-y"@, "-i"@, o.input@] + image_input(o) + (match o.start_time {
        Some(t) => seq!["-ss"@, seek_text(t)],
        None => Seq::empty(),
    }) + (match o.end_time {
        Some(t) => seq!["-to"@, seek_text(t)],
        None => Seq::empty(),
    }) + (if o.audio_only { seq!["-vn"@] } else { Seq::empty() }) + opt_pair(
        "-c:v"@,
        o.video_codec,
    ) + opt_pair("-c:a"@, o.audio_codec) + (match o.crf {
        Some(c) => seq!["-crf"@, nat_text(c as nat)],
        None => Seq::empty(),
    }) + opt_pair("-preset"@, o.preset)
}

/// The full argument list of a conversion: inputs and encoding choices, the
/// filter arguments, the machine-readable progress channel, the output.
pub open spec fn convert_args(o: ConvertOptions, total: u64) -> Seq<Seq<char>> {
    convert_head(o) + filter_args(o, total) + seq!["-progress"@, "pipe:1"@, o.output@]
}

fn push_str(v: &mut Vec<String>, s: &str)
    ensures
        texts(final(v)@) == texts(old(v)@).push(s@),
{
    push_text(v, String::from_str(s));
}

fn push_opt_pair(v: &mut Vec<String>, flag: &str, x: &Option<String>)
    ensures
        texts(final(v)@) == texts(old(v)@) + opt_pair(flag@, *x),
{
    let ghost start = texts(v@);
    if let Some(x) = x {
        push_str(v, flag);
        push_str(v, x.as_str());
    }
    assert(texts(v@) =~= start + opt_pair(flag@, *x));
}

fn seek_string(t: u64) -> (r: String)
    ensures
        r@ == seek_text(t),
{
    let c = t / 10 + if t % 10 >= 5 { 1 } else { 0 };
    assert(c == (t + 5) / 10);
    render_centi(c as i64)
}

fn push_image_input(v: &mut Vec<String>, o: &ConvertOptions)
    ensures
        texts(final(v)@) == texts(old(v)@) + image_input(*o),
{
    let ghost start = texts(v@);
    if let Some(ov) = &o.overlays {
        if let Some(img) = &ov.image {
            push_str(v, "-i");
            push_str(v, img.path.as_str());
        }
    }
    assert(texts(v@) =~= start + image_input(*o));
}

fn convert_head_args(o: &ConvertOptions) -> (r: Vec<String>)
    ensures
        texts(r@) == convert_head(*o),
{
    let mut v: Vec<String> = Vec::new();
    if o.hw_accel == Some(true) {
        push_str(&mut v, "-hwaccel");
        push_str(&mut v, "auto");
    }
    push_str(&mut v, "-y");
    push_str(&mut v, "-i");
    push_str(&mut v, o.input.as_str());
    let ghost g1 = (if o.hw_accel == Some(true) { seq!["-hwaccel"@, "auto"@] } else { Seq::empty() })
        + seq!["-y"@, "-i"@, o.input@];
    assert(texts(v@) =~= g1);
    push_image_input(&mut v, o);
    let ghost g2 = g1 + image_input(*o);
    if let Some(t) = o.start_time {
        push_str(&mut v, "-ss");
        push_text(&mut v, seek_string(t));
    }
    let ghost g3 = g2 + (match o.start_time {
        Some(t) => seq!["-ss"@, seek_text(t)],
        None => Seq::empty(),
    });
    assert(texts(v@) =~= g3);
    if let Some(t) = o.end_time {
        push_str(&mut v, "-to");
        push_text(&mut v, seek_string(t));
    }
    let ghost g4 = g3 + (match o.end_time {
        Some(t) => seq!["-to"@, seek_text(t)],
        None => Seq::empty(),
    });
    assert(texts(v@) =~= g4);
    if o.audio_only {
        push_str(&mut v, "-vn");
    }
    let ghost g5 = g4 + (if o.audio_only { seq!["-vn"@] } else { Seq::empty() });
    assert(texts(v@) =~= g5);
    push_opt_pair(&mut v, "-c:v", &o.video_codec);
    push_opt_pair(&mut v, "-c:a", &o.audio_codec);
    let ghost g6 = g5 + opt_pair("-c:v"@, o.video_codec) + opt_pair("-c:a"@, o.audio_codec);
    if let Some(c) = o.crf {
        push_str(&mut v, "-crf");
        push_text(&mut v, render_nat(c as u64));
    }
    assert(texts(v@) =~= g6 + (match o.crf {
        Some(c) => seq!["-crf"@, nat_text(c as nat)],
        None => Seq::empty(),
    }));
    push_opt_pair(&mut v, "-preset", &o.preset);
    v
}

fn append_texts(v: &mut Vec<String>, w: Vec<String>)
    ensures
        texts(final(v)@) == texts(old(v)@) + texts(w@),
{
    let mut w = w;
    let ghost wv = w@;
    v.append(&mut w);
    assert(texts(v@) =~= texts(old(v)@) + texts(wv));
}

/// The arguments of a conversion against the source's total duration
/// (thousandths of a second).
pub fn build_convert_args(o: &ConvertOptions, total: u64) -> (r: Vec<String>)
    ensures
        texts(r@) == convert_args(*o, total),
{
    let mut v = convert_head_args(o);
    let (f, _) = build_filter_chain(o, total);
    append_texts(&mut v, f);
    push_str(&mut v, "-progress");
    push_str(&mut v, "pipe:1");
    push_str(&mut v, o.output.as_str());
    assert(texts(v@) =~= convert_args(*o, total));
    v
}

/// An argument that concerns audio only, which a single-frame preview leaves
/// out.
pub open spec fn audio_only_arg(a: Seq<char>) -> bool {
    has_sub(a, "afade"@) || has_sub(a, "atempo"@) || has_sub(a, "volume"@) || has_sub(
        a,
        "equalizer"@,
    ) || has_sub(a, "acompressor"@) || has_sub(a, "loudnorm"@) || has_sub(a, "afftdn"@) || a
        == "-af"@ || a == "-map"@ || a == "0:a"@
}

/// The arguments that are not audio-only, in order.
pub open spec fn video_only(args: Seq<Seq<char>>) -> Seq<Seq<char>>
    decreases args.len(),
{
    if args.len() == 0 {
        Seq::empty()
    } else {
        video_only(args.drop_last()) + if audio_only_arg(args.last()) {
            Seq::empty()
        } else {
            seq![args.last()]
        }
    }
}

/// The arguments of a single-frame preview at `timestamp` (thousandths of a
/// second), written to standard output as an image.
pub open spec fn preview_args(o: ConvertOptions, timestamp: u64) -> Seq<Seq<char>> {
    seq!["-y"@, "-ss"@, milli_fixed_text(timestamp as int), "-i"@, o.input@] + image_input(o)
        + video_only(filter_args(o, 0)) + seq!["-vframes"@, "1"@, "-f"@, "image2"@, "-"@]
}

proof fn lemma_video_only_keeps_no_audio(args: Seq<Seq<char>>)
    ensures
        forall|i: int|
            0 <= i < video_only(args).len() ==> !audio_only_arg(#[trigger] video_only(args)[i]),
    decreases args.len(),
{
    if args.len() > 0 {
        let front = video_only(args.drop_last());
        lemma_video_only_keeps_no_audio(args.drop_last());
        assert forall|i: int|
            0 <= i < video_only(args).len() implies !audio_only_arg(
                #[trigger] video_only(args)[i],
            ) by {
            if i < front.len() {
                assert(video_only(args)[i] == front[i]);
            } else {
                assert(video_only(args)[i] == args.last());
            }
        }
    }
}

/// A preview keeps none of the audio stages or audio selections of the job's
/// filter arguments: every argument between its inputs and its output
/// settings concerns video.
pub proof fn preview_has_no_audio_law(o: ConvertOptions, timestamp: u64)
    ensures
        forall|i: int|
            5 + image_input(o).len() <= i < preview_args(o, timestamp).len() - 5
                ==> !audio_only_arg(#[trigger] preview_args(o, timestamp)[i]),
{
    let p = preview_args(o, timestamp);
    let v = video_only(filter_args(o, 0));
    let a = seq!["-y"@, "-ss"@, milli_fixed_text(timestamp as int), "-i"@, o.input@] + image_input(o);
    let z = seq!["-vframes"@, "1"@, "-f"@, "image2"@, "-"@];
    assert(p == a + v + z);
    assert(a.len() == 5 + image_input(o).len());
    assert(p.len() == a.len() + v.len() + 5);
    lemma_video_only_keeps_no_audio(filter_args(o, 0));
    assert forall|i: int| a.len() <= i < p.len() - 5 implies !audio_only_arg(#[trigger] p[i]) by {
        assert((a + v)[i] == v[i - a.len()]);
        assert(p[i] == (a + v)[i]);
    }
}

fn is_audio_only_arg(a: &String) -> (r: bool)
    ensures
        r == audio_only_arg(a@),
{
    let s = a.as_str();
    contains(s, "afade") || contains(s, "atempo") || contains(s, "volume") || contains(
        s,
        "equalizer",
    ) || contains(s, "acompressor") || contains(s, "loudnorm") || contains(s, "afftdn") || eq_str(s, "-af") || eq_str(s, "-map") || eq_str(s, "0:a")
}

pub fn eq_str(a: &str, b: &str) -> (r: bool)
    ensures
        r == (a@ == b@),
{
    let n = a.unicode_len();
    if n != b.unicode_len() {
        return false;
    }
    let mut i: usize = 0;
    while i < n
        invariant
            n == a@.len() && n == b@.len(),
            i <= n,
            forall|t: int| 0 <= t < i ==> a@[t] == b@[t],
        decreases n - i,
    {
        if a.get_char(i) != b.get_char(i) {
            return false;
        }
        i = i + 1;
    }
    assert(a@ =~= b@);
    true
}

/// The arguments of a single-frame preview; no audio stage or audio
/// selection stays in them.
pub fn build_preview_args(o: &ConvertOptions, timestamp: u64) -> (r: Vec<String>)
    ensures
        texts(r@) == preview_args(*o, timestamp),
{
    let mut v: Vec<String> = Vec::new();
    push_str(&mut v, "-y");
    push_str(&mut v, "-ss");
    push_text(&mut v, render_milli_fixed(timestamp));
    push_str(&mut v, "-i");
    push_str(&mut v, o.input.as_str());
    let ghost g1 = seq!["-y"@, "-ss"@, milli_fixed_text(timestamp as int), "-i"@, o.input@];
    assert(texts(v@) =~= g1);
    push_image_input(&mut v, o);
    let (f, _) = build_filter_chain(o, 0);
    let ghost fa = texts(f@);
    let ghost g2 = g1 + image_input(*o);
    let mut i: usize = 0;
    while i < f.len()
        invariant
            i <= f@.len(),
            fa == texts(f@),
            texts(v@) == g2 + video_only(fa.take(i as int)),
        decreases f@.len() - i,
    {
        assert(fa.take(i + 1).drop_last() =~= fa.take(i as int));
        if !is_audio_only_arg(&f[i]) {
            push_str(&mut v, f[i].as_str());
        }
        assert(texts(v@) =~= g2 + video_only(fa.take(i + 1)));
        i = i + 1;
    }
    assert(fa.take(i as int) =~= fa);
    push_str(&mut v, "-vframes");
    push_str(&mut v, "1");
    push_str(&mut v, "-f");
    push_str(&mut v, "image2");
    push_str(&mut v, "-");
    assert(texts(v@) =~= preview_args(*o, timestamp));
    v
}

/// The list file of a concatenation: one line `file '<path>'` per input, each
/// single quote in a path escaped.
pub open spec fn concat_list(files: Seq<String>) -> Seq<char>
    decreases files.len(),
{
    if files.len() == 0 {
        Seq::empty()
    } else {
        concat_list(files.drop_last()) + "file '"@ + escaped(files.last()@, Escape::Quoted)
            + "'\n"@
    }
}

/// Writes the list file of a concatenation.
pub fn build_concat_list(files: &Vec<String>) -> (r: String)
    ensures
        r@ == concat_list(files@),
{
    let mut out = String::new();
    let mut i: usize = 0;
    while i < files.len()
        invariant
            i <= files@.len(),
            out@ == concat_list(files@.take(i as int)),
        decreases files@.len() - i,
    {
        assert(files@.take(i + 1).drop_last() =~= files@.take(i as int));
        out.append("file '");
        out.append(escape(files[i].as_str(), Escape::Quoted).as_str());
        out.append("'\n");
        i = i + 1;
    }
    assert(files@.take(i as int) =~= files@);
    out
}

/// The arguments of a stream-copy concatenation of the files listed in
/// `list_path`.
pub open spec fn merge_args(list_path: Seq<char>, output: Seq<char>) -> Seq<Seq<char>> {
    seq![
        "-f"@,
        "concat"@,
        "-safe"@,
        "0"@,
        "-i"@,
        list_path,
        "-c"@,
        "copy"@,
        "-y"@,
        output,
    ]
}

pub fn build_merge_args(list_path: &str, output: &str) -> (r: Vec<String>)
    ensures
        texts(r@) == merge_args(list_path@, output@),
{
    let mut v: Vec<String> = Vec::new();
    push_str(&mut v, "-f");
    push_str(&mut v, "concat");
    push_str(&mut v, "-safe");
    push_str(&mut v, "0");
    push_str(&mut v, "-i");
    push_str(&mut v, list_path);
    push_str(&mut v, "-c");
    push_str(&mut v, "copy");
    push_str(&mut v, "-y");
    push_str(&mut v, output);
    assert(texts(v@) =~= merge_args(list_path@, output@));
    v
}

} // verus!
