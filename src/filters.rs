//! The filter chain: the ordered filter stages that a job's settings call
//! for, and the argument list that hands them to the external tool.
use vstd::prelude::*;
use vstd::string::StringExecFns;
use crate::models::{
    AudioFilterSettings, ConvertOptions, FilterSettings, ImageOverlay, TextOverlay,
    VideoTransformSettings,
};
use crate::text::{
    centi_text, div_round, milli_text, nat_text, render_centi, render_milli, render_milli_u64,
    render_nat, round_div,
};
use crate::textlist::{
    escape, escaped, flatten, join, join_texts, push_pair, push_text, texts, Escape,
};

verus! {

/// A quarter turn in millionths of a radian.
pub const QUARTER_TURN_MICRO: i64 = 1_570_796;

/// The palette pipeline that ends a GIF export.
pub open spec fn gif_stage() -> Seq<char> {
    "fps=15,scale=480:-1:flags=lanczos,split[s0][s1];[s0]palettegen[p];[s1][p]paletteuse"@
}

/// One stage where `c` holds, none otherwise.
pub open spec fn opt(c: bool, s: Seq<char>) -> Seq<Seq<char>> {
    if c { seq![s] } else { Seq::empty() }
}

/// A playback speed (thousandths) that calls for a change of pace: positive
/// and other than 1. A speed of zero or below is taken as no change.
pub open spec fn speed_changes(sp: i32) -> bool {
    sp > 0 && sp != 1000
}

/// Where the trim window starts (0 if untrimmed), in thousandths of a second.
pub open spec fn trim_start(o: ConvertOptions) -> nat {
    match o.start_time {
        Some(s) => s as nat,
        None => 0,
    }
}

/// Where the trim window ends (the total duration if unset).
pub open spec fn trim_end(o: ConvertOptions, total: u64) -> nat {
    match o.end_time {
        Some(e) => e as nat,
        None => total as nat,
    }
}

/// When a fade-out of `d` starts: the output span less `d`, but never below 0.
pub open spec fn fade_out_start(o: ConvertOptions, total: u64, d: int) -> nat {
    let st = trim_end(o, total) - trim_start(o) - d;
    if st > 0 { st as nat } else { 0 }
}

pub open spec fn fade_in_text(name: Seq<char>, o: ConvertOptions, d: int) -> Seq<char> {
    name + "=t=in:st="@ + milli_text(trim_start(o) as int) + ":d="@ + milli_text(d)
}

pub open spec fn fade_out_text(name: Seq<char>, o: ConvertOptions, total: u64, d: int) -> Seq<
    char,
> {
    name + "=t=out:st="@ + milli_text(fade_out_start(o, total, d) as int) + ":d="@ + milli_text(d)
}

pub open spec fn pre_stages(o: ConvertOptions) -> Seq<Seq<char>> {
    match o.video_transform {
        Some(t) => opt(t.deinterlace, "yadif"@) + opt(
            t.denoise,
            "hqdn3d=luma_tmp="@ + milli_text(t.denoise_strength * 500),
        ),
        None => Seq::empty(),
    }
}

/// The time-base rescale by `1/speed`, written to the thousandth (rounded).
pub open spec fn speed_stages(o: ConvertOptions) -> Seq<Seq<char>> {
    match o.playback_speed {
        Some(sp) => opt(
            speed_changes(sp),
            "setpts="@ + milli_text(div_round(1_000_000, sp as int)) + "*PTS"@,
        ),
        None => Seq::empty(),
    }
}

pub open spec fn rotation_stages(o: ConvertOptions) -> Seq<Seq<char>> {
    match o.video_transform {
        Some(t) => if t.rotation == 90 {
            seq!["transpose=1"@]
        } else if t.rotation == 180 {
            seq!["transpose=2,transpose=2"@]
        } else if t.rotation == 270 {
            seq!["transpose=2"@]
        } else {
            Seq::empty()
        },
        None => Seq::empty(),
    }
}

/// The crop: width `in_w - left - right`, height `in_h - top - bottom`,
/// origin at `(left, top)`.
pub open spec fn crop_text(t: VideoTransformSettings) -> Seq<char> {
    "crop=in_w-"@ + nat_text(t.crop_left as nat) + "-"@ + nat_text(t.crop_right as nat)
        + ":in_h-"@ + nat_text(t.crop_top as nat) + "-"@ + nat_text(t.crop_bottom as nat) + ":"@
        + nat_text(t.crop_left as nat) + ":"@ + nat_text(t.crop_top as nat)
}

pub open spec fn crop_stages(o: ConvertOptions) -> Seq<Seq<char>> {
    match o.video_transform {
        Some(t) => opt(t.crop_enabled, crop_text(t)),
        None => Seq::empty(),
    }
}

/// A target dimension, or -1 to keep the aspect ratio.
pub open spec fn dim_text(d: Option<u32>) -> Seq<char> {
    match d {
        Some(v) => nat_text(v as nat),
        None => "-1"@,
    }
}

pub open spec fn scale_stages(o: ConvertOptions) -> Seq<Seq<char>> {
    opt(
        o.width is Some || o.height is Some,
        "scale="@ + dim_text(o.width) + ":"@ + dim_text(o.height),
    )
}

pub open spec fn flip_stages(o: ConvertOptions) -> Seq<Seq<char>> {
    match o.video_transform {
        Some(t) => opt(t.flip_horizontal, "hflip"@) + opt(t.flip_vertical, "vflip"@),
        None => Seq::empty(),
    }
}

/// The combined color adjustment, present whenever color settings are.
pub open spec fn eq_text(f: FilterSettings) -> Seq<char> {
    "eq=brightness="@ + milli_text(f.brightness as int) + ":contrast="@ + milli_text(
        f.contrast as int,
    ) + ":saturation="@ + milli_text(f.saturation as int) + ":gamma="@ + milli_text(
        f.gamma as int,
    )
}

/// The vignette's angle in thousandths of a radian: a quarter turn times the
/// strength, rounded.
pub open spec fn vignette_angle(strength: i32) -> int {
    div_round(strength * QUARTER_TURN_MICRO, 1_000_000)
}

pub open spec fn color_stages_of(f: FilterSettings) -> Seq<Seq<char>> {
    seq![eq_text(f)] + opt(f.hue != 0, "hue=h="@ + milli_text(f.hue as int)) + opt(
        f.blur > 0,
        "boxblur="@ + milli_text(f.blur as int),
    ) + opt(f.sharpen > 0, "unsharp=5:5:"@ + milli_text(f.sharpen as int)) + opt(
        f.vignette,
        "vignette=a="@ + milli_text(vignette_angle(f.vignette_strength)),
    )
}

pub open spec fn color_stages(o: ConvertOptions) -> Seq<Seq<char>> {
    match o.filters {
        Some(f) => color_stages_of(f),
        None => Seq::empty(),
    }
}

pub open spec fn fade_stages(o: ConvertOptions, total: u64) -> Seq<Seq<char>> {
    match o.video_transform {
        Some(t) => opt(
            t.fade_in_duration > 0,
            fade_in_text("fade"@, o, t.fade_in_duration as int),
        ) + opt(
            t.fade_out_duration > 0,
            fade_out_text("fade"@, o, total, t.fade_out_duration as int),
        ),
        None => Seq::empty(),
    }
}

pub open spec fn subtitle_stages(o: ConvertOptions) -> Seq<Seq<char>> {
    match o.subtitle_path {
        Some(p) => seq!["subtitles='"@ + escaped(p@, Escape::FilterPath) + "'"@],
        None => Seq::empty(),
    }
}

/// A position, or `default` where it is empty.
pub open spec fn or_default(s: Seq<char>, default: Seq<char>) -> Seq<char> {
    if s.len() == 0 { default } else { s }
}

pub open spec fn drawtext_text(t: TextOverlay) -> Seq<char> {
    "drawtext=text='"@ + escaped(t.content@, Escape::FilterText) + "':fontsize="@ + nat_text(
        t.font_size as nat,
    ) + ":fontcolor="@ + t.color@ + ":x="@ + or_default(t.x@, "10"@) + ":y="@ + or_default(
        t.y@,
        "10"@,
    )
}

pub open spec fn text_stages(o: ConvertOptions) -> Seq<Seq<char>> {
    match o.overlays {
        Some(ov) => match ov.text {
            Some(t) => seq![drawtext_text(t)],
            None => Seq::empty(),
        },
        None => Seq::empty(),
    }
}

pub open spec fn gif_stages(o: ConvertOptions) -> Seq<Seq<char>> {
    opt(o.export_gif == Some(true), gif_stage())
}

/// The simple video filter stages, in the order the tool must apply them.
pub open spec fn video_stages(o: ConvertOptions, total: u64) -> Seq<Seq<char>> {
    pre_stages(o) + speed_stages(o) + rotation_stages(o) + crop_stages(o) + scale_stages(o)
        + flip_stages(o) + color_stages(o) + fade_stages(o, total) + subtitle_stages(o)
        + text_stages(o) + gif_stages(o)
}

fn text_of(s: &str) -> (r: String)
    ensures
        r@ == s@,
{
    String::from_str(s)
}

fn push_pre_stages(v: &mut Vec<String>, o: &ConvertOptions)
    ensures
        texts(final(v)@) == texts(old(v)@) + pre_stages(*o),
{
    let ghost start = texts(v@);
    if let Some(t) = &o.video_transform {
        if t.deinterlace {
            push_text(v, text_of("yadif"));
        }
        assert(texts(v@) =~= start + opt(t.deinterlace, "yadif"@));
        if t.denoise {
            let mut s = text_of("hqdn3d=luma_tmp=");
            s.append(render_milli(t.denoise_strength as i64 * 500).as_str());
            push_text(v, s);
        }
    }
    assert(texts(v@) =~= start + pre_stages(*o));
}

fn push_speed_stages(v: &mut Vec<String>, o: &ConvertOptions)
    ensures
        texts(final(v)@) == texts(old(v)@) + speed_stages(*o),
{
    let ghost start = texts(v@);
    if let Some(sp) = o.playback_speed {
        if sp > 0 && sp != 1000 {
            let mut s = text_of("setpts=");
            s.append(render_milli(round_div(1_000_000, sp as i64)).as_str());
            s.append("*PTS");
            push_text(v, s);
        }
    }
    assert(texts(v@) =~= start + speed_stages(*o));
}

fn push_rotation_stages(v: &mut Vec<String>, o: &ConvertOptions)
    ensures
        texts(final(v)@) == texts(old(v)@) + rotation_stages(*o),
{
    let ghost start = texts(v@);
    if let Some(t) = &o.video_transform {
        if t.rotation == 90 {
            push_text(v, text_of("transpose=1"));
        } else if t.rotation == 180 {
            push_text(v, text_of("transpose=2,transpose=2"));
        } else if t.rotation == 270 {
            push_text(v, text_of("transpose=2"));
        }
    }
    assert(texts(v@) =~= start + rotation_stages(*o));
}

fn crop_string(t: &VideoTransformSettings) -> (r: String)
    ensures
        r@ == crop_text(*t),
{
    let mut s = text_of("crop=in_w-");
    s.append(render_nat(t.crop_left as u64).as_str());
    s.append("-");
    s.append(render_nat(t.crop_right as u64).as_str());
    s.append(":in_h-");
    s.append(render_nat(t.crop_top as u64).as_str());
    s.append("-");
    s.append(render_nat(t.crop_bottom as u64).as_str());
    s.append(":");
    s.append(render_nat(t.crop_left as u64).as_str());
    s.append(":");
    s.append(render_nat(t.crop_top as u64).as_str());
    s
}

fn push_crop_stages(v: &mut Vec<String>, o: &ConvertOptions)
    ensures
        texts(final(v)@) == texts(old(v)@) + crop_stages(*o),
{
    let ghost start = texts(v@);
    if let Some(t) = &o.video_transform {
        if t.crop_enabled {
            push_text(v, crop_string(t));
        }
    }
    assert(texts(v@) =~= start + crop_stages(*o));
}

fn dim_string(d: Option<u32>) -> (r: String)
    ensures
        r@ == dim_text(d),
{
    match d {
        Some(x) => render_nat(x as u64),
        None => text_of("-1"),
    }
}

fn push_scale_stages(v: &mut Vec<String>, o: &ConvertOptions)
    ensures
        texts(final(v)@) == texts(old(v)@) + scale_stages(*o),
{
    let ghost start = texts(v@);
    if o.width.is_some() || o.height.is_some() {
        let mut s = text_of("scale=");
        s.append(dim_string(o.width).as_str());
        s.append(":");
        s.append(dim_string(o.height).as_str());
        push_text(v, s);
    }
    assert(texts(v@) =~= start + scale_stages(*o));
}

fn push_flip_stages(v: &mut Vec<String>, o: &ConvertOptions)
    ensures
        texts(final(v)@) == texts(old(v)@) + flip_stages(*o),
{
    let ghost start = texts(v@);
    if let Some(t) = &o.video_transform {
        if t.flip_horizontal {
            push_text(v, text_of("hflip"));
        }
        assert(texts(v@) =~= start + opt(t.flip_horizontal, "hflip"@));
        if t.flip_vertical {
            push_text(v, text_of("vflip"));
        }
    }
    assert(texts(v@) =~= start + flip_stages(*o));
}

fn eq_string(f: &FilterSettings) -> (r: String)
    ensures
        r@ == eq_text(*f),
{
    let mut s = text_of("eq=brightness=");
    s.append(render_milli(f.brightness as i64).as_str());
    s.append(":contrast=");
    s.append(render_milli(f.contrast as i64).as_str());
    s.append(":saturation=");
    s.append(render_milli(f.saturation as i64).as_str());
    s.append(":gamma=");
    s.append(render_milli(f.gamma as i64).as_str());
    s
}

fn prefixed_milli(prefix: &str, v: i64) -> (r: String)
    ensures
        r@ == prefix@ + milli_text(v as int),
{
    let mut s = text_of(prefix);
    s.append(render_milli(v).as_str());
    s
}

fn push_color_stages(v: &mut Vec<String>, o: &ConvertOptions)
    ensures
        texts(final(v)@) == texts(old(v)@) + color_stages(*o),
{
    let ghost start = texts(v@);
    if let Some(f) = &o.filters {
        push_text(v, eq_string(f));
        let ghost s1 = start + seq![eq_text(*f)];
        assert(texts(v@) =~= s1);
        if f.hue != 0 {
            push_text(v, prefixed_milli("hue=h=", f.hue as i64));
        }
        let ghost s2 = s1 + opt(f.hue != 0, "hue=h="@ + milli_text(f.hue as int));
        assert(texts(v@) =~= s2);
        if f.blur > 0 {
            push_text(v, prefixed_milli("boxblur=", f.blur as i64));
        }
        let ghost s3 = s2 + opt(f.blur > 0, "boxblur="@ + milli_text(f.blur as int));
        assert(texts(v@) =~= s3);
        if f.sharpen > 0 {
            push_text(v, prefixed_milli("unsharp=5:5:", f.sharpen as i64));
        }
        let ghost s4 = s3 + opt(f.sharpen > 0, "unsharp=5:5:"@ + milli_text(f.sharpen as int));
        assert(texts(v@) =~= s4);
        if f.vignette {
            let angle = round_div(f.vignette_strength as i64 * QUARTER_TURN_MICRO, 1_000_000);
            push_text(v, prefixed_milli("vignette=a=", angle));
        }
    }
    assert(texts(v@) =~= start + color_stages(*o));
}

/// `fade_in_text(name, o, d)`.
fn fade_in_string(name: &str, o: &ConvertOptions, d: i32) -> (r: String)
    ensures
        r@ == fade_in_text(name@, *o, d as int),
{
    let st: u64 = match o.start_time {
        Some(s) => s,
        None => 0,
    };
    let mut s = text_of(name);
    s.append("=t=in:st=");
    s.append(render_milli_u64(st).as_str());
    s.append(":d=");
    s.append(render_milli(d as i64).as_str());
    s
}

/// `fade_out_text(name, o, total, d)`.
fn fade_out_string(name: &str, o: &ConvertOptions, total: u64, d: i32) -> (r: String)
    requires
        d > 0,
    ensures
        r@ == fade_out_text(name@, *o, total, d as int),
{
    let st: u64 = match o.start_time {
        Some(s) => s,
        None => 0,
    };
    let en: u64 = match o.end_time {
        Some(e) => e,
        None => total,
    };
    let fs: u64 = if en >= st && en - st > d as u64 {
        en - st - d as u64
    } else {
        0
    };
    assert(fs == fade_out_start(*o, total, d as int));
    let mut s = text_of(name);
    s.append("=t=out:st=");
    s.append(render_milli_u64(fs).as_str());
    s.append(":d=");
    s.append(render_milli(d as i64).as_str());
    s
}

fn push_fade_stages(v: &mut Vec<String>, o: &ConvertOptions, total: u64)
    ensures
        texts(final(v)@) == texts(old(v)@) + fade_stages(*o, total),
{
    let ghost start = texts(v@);
    if let Some(t) = &o.video_transform {
        if t.fade_in_duration > 0 {
            push_text(v, fade_in_string("fade", o, t.fade_in_duration));
        }
        assert(texts(v@) =~= start + opt(
            t.fade_in_duration > 0,
            fade_in_text("fade"@, *o, t.fade_in_duration as int),
        ));
        if t.fade_out_duration > 0 {
            push_text(v, fade_out_string("fade", o, total, t.fade_out_duration));
        }
    }
    assert(texts(v@) =~= start + fade_stages(*o, total));
}

fn push_subtitle_stages(v: &mut Vec<String>, o: &ConvertOptions)
    ensures
        texts(final(v)@) == texts(old(v)@) + subtitle_stages(*o),
{
    let ghost start = texts(v@);
    if let Some(p) = &o.subtitle_path {
        let mut s = text_of("subtitles='");
        s.append(escape(p.as_str(), Escape::FilterPath).as_str());
        s.append("'");
        push_text(v, s);
    }
    assert(texts(v@) =~= start + subtitle_stages(*o));
}

fn or_default_str<'a>(s: &'a String, default: &'a str) -> (r: &'a str)
    ensures
        r@ == or_default(s@, default@),
{
    if s.as_str().is_empty() {
        default
    } else {
        s.as_str()
    }
}

fn drawtext_string(t: &TextOverlay) -> (r: String)
    ensures
        r@ == drawtext_text(*t),
{
    let mut s = text_of("drawtext=text='");
    s.append(escape(t.content.as_str(), Escape::FilterText).as_str());
    s.append("':fontsize=");
    s.append(render_nat(t.font_size as u64).as_str());
    s.append(":fontcolor=");
    s.append(t.color.as_str());
    s.append(":x=");
    s.append(or_default_str(&t.x, "10"));
    s.append(":y=");
    s.append(or_default_str(&t.y, "10"));
    s
}

fn push_text_stages(v: &mut Vec<String>, o: &ConvertOptions)
    ensures
        texts(final(v)@) == texts(old(v)@) + text_stages(*o),
{
    let ghost start = texts(v@);
    if let Some(ov) = &o.overlays {
        if let Some(t) = &ov.text {
            push_text(v, drawtext_string(t));
        }
    }
    assert(texts(v@) =~= start + text_stages(*o));
}

fn push_gif_stages(v: &mut Vec<String>, o: &ConvertOptions)
    ensures
        texts(final(v)@) == texts(old(v)@) + gif_stages(*o),
{
    let ghost start = texts(v@);
    if o.export_gif == Some(true) {
        push_text(
            v,
            text_of(
                "fps=15,scale=480:-1:flags=lanczos,split[s0][s1];[s0]palettegen[p];[s1][p]paletteuse",
            ),
        );
    }
    assert(texts(v@) =~= start + gif_stages(*o));
}

/// The simple video filter stages of a job, in order.
pub fn video_filter_stages(o: &ConvertOptions, total: u64) -> (r: Vec<String>)
    ensures
        texts(r@) == video_stages(*o, total),
{
    let mut v: Vec<String> = Vec::new();
    assert(texts(v@) =~= Seq::<Seq<char>>::empty());
    push_pre_stages(&mut v, o);
    assert(texts(v@) =~= pre_stages(*o));
    push_speed_stages(&mut v, o);
    push_rotation_stages(&mut v, o);
    push_crop_stages(&mut v, o);
    push_scale_stages(&mut v, o);
    push_flip_stages(&mut v, o);
    push_color_stages(&mut v, o);
    push_fade_stages(&mut v, o, total);
    push_subtitle_stages(&mut v, o);
    push_text_stages(&mut v, o);
    push_gif_stages(&mut v, o);
    v
}

/// The image overlay of a job, if it has one.
pub open spec fn image_of(o: ConvertOptions) -> Option<ImageOverlay> {
    match o.overlays {
        Some(ov) => ov.image,
        None => None,
    }
}

/// The video chain as one text, "null" where it is empty.
pub open spec fn chain_or_null(stages: Seq<Seq<char>>) -> Seq<char> {
    if stages.len() == 0 { "null"@ } else { join(stages, ","@) }
}

/// Composites the overlay image (second input) over `[v1]` into `[outv]`,
/// scaling its alpha first unless it is opaque.
pub open spec fn overlay_text(img: ImageOverlay) -> Seq<char> {
    let pos = "overlay=x="@ + or_default(img.x@, "0"@) + ":y="@ + or_default(img.y@, "0"@)
        + "[outv]"@;
    if img.opacity != 1000 {
        "[1:v]format=rgba,colorchannelmixer=aa="@ + centi_text(div_round(img.opacity as int, 10))
            + "[ovr];[v1][ovr]"@ + pos
    } else {
        "[v1][1:v]"@ + pos
    }
}

/// The labeled graph: the primary input through the chain into `[v1]`, then
/// the overlay.
pub open spec fn graph_text(img: ImageOverlay, stages: Seq<Seq<char>>) -> Seq<char> {
    "[0:v]"@ + chain_or_null(stages) + "[v1];"@ + overlay_text(img)
}

/// The video directives: a complex graph and the selection of its output
/// where an image overlay is present, else a simple chain if it is not empty.
pub open spec fn video_directives(o: ConvertOptions, total: u64) -> Seq<(Seq<char>, Seq<char>)> {
    let stages = video_stages(o, total);
    match image_of(o) {
        Some(img) => seq![("-filter_complex"@, graph_text(img, stages)), ("-map"@, "[outv]"@)],
        None => if stages.len() == 0 {
            Seq::empty()
        } else {
            seq![("-vf"@, join(stages, ","@))]
        },
    }
}

/// The noise reduction level in hundredths: the strength (thousandths of a
/// percent) mapped onto 0 to 30, at least 0.1.
pub open spec fn noise_level(strength: i32) -> int {
    let l = div_round(strength * 3, 100);
    if l < 10 { 10 } else { l }
}

pub open spec fn denoise_audio_stages(o: ConvertOptions) -> Seq<Seq<char>> {
    match o.audio_filters {
        Some(a) => opt(
            a.noise_reduction,
            "afftdn=nr="@ + centi_text(noise_level(a.noise_reduction_strength)),
        ),
        None => Seq::empty(),
    }
}

pub open spec fn tempo_stages(o: ConvertOptions) -> Seq<Seq<char>> {
    match o.playback_speed {
        Some(sp) => opt(speed_changes(sp), "atempo="@ + milli_text(sp as int)),
        None => Seq::empty(),
    }
}

pub open spec fn volume_stages(o: ConvertOptions) -> Seq<Seq<char>> {
    match o.audio_volume {
        Some(vol) => opt(vol != 1000, "volume="@ + milli_text(vol as int)),
        None => Seq::empty(),
    }
}

pub open spec fn equalizer_stages(o: ConvertOptions) -> Seq<Seq<char>> {
    match o.audio_filters {
        Some(a) => if a.eq_enabled {
            seq![
                "equalizer=f=100:t=h:w=200:g="@ + milli_text(a.bass_gain as int),
                "equalizer=f=1000:t=h:w=500:g="@ + milli_text(a.mid_gain as int),
                "equalizer=f=10000:t=h:w=2000:g="@ + milli_text(a.treble_gain as int),
            ]
        } else {
            Seq::empty()
        },
        None => Seq::empty(),
    }
}

pub open spec fn compressor_text(a: AudioFilterSettings) -> Seq<char> {
    "acompressor=threshold="@ + milli_text(a.compressor_threshold as int) + "dB:ratio="@
        + milli_text(a.compressor_ratio as int) + ":attack=5:release=50"@
}

pub open spec fn dynamics_stages(o: ConvertOptions) -> Seq<Seq<char>> {
    match o.audio_filters {
        Some(a) => opt(a.compressor_enabled, compressor_text(a)) + opt(
            a.normalize,
            "loudnorm=I="@ + milli_text(a.target_lufs as int) + ":TP=-1.5:LRA=11"@,
        ),
        None => Seq::empty(),
    }
}

pub open spec fn audio_fade_stages(o: ConvertOptions, total: u64) -> Seq<Seq<char>> {
    match o.audio_filters {
        Some(a) => opt(
            a.fade_in_duration > 0,
            fade_in_text("afade"@, o, a.fade_in_duration as int),
        ) + opt(
            a.fade_out_duration > 0,
            fade_out_text("afade"@, o, total, a.fade_out_duration as int),
        ),
        None => Seq::empty(),
    }
}

/// The audio filter stages, in order.
pub open spec fn audio_stages(o: ConvertOptions, total: u64) -> Seq<Seq<char>> {
    denoise_audio_stages(o) + tempo_stages(o) + volume_stages(o) + equalizer_stages(o)
        + dynamics_stages(o) + audio_fade_stages(o, total)
}

/// The filter directives of a job, in order: video, audio, the audio
/// selection that a complex graph needs, and the single-frame limit.
pub open spec fn filter_directives(o: ConvertOptions, total: u64) -> Seq<(Seq<char>, Seq<char>)> {
    let audio = audio_stages(o, total);
    video_directives(o, total) + (if audio.len() == 0 {
        Seq::empty()
    } else {
        seq![("-af"@, join(audio, ","@))]
    }) + (if image_of(o) is Some && !o.audio_only {
        seq![("-map"@, "0:a"@)]
    } else {
        Seq::empty()
    }) + (if o.extract_thumbnail == Some(true) {
        seq![("-vframes"@, "1"@)]
    } else {
        Seq::empty()
    })
}

/// The filter arguments of a job.
pub open spec fn filter_args(o: ConvertOptions, total: u64) -> Seq<Seq<char>> {
    flatten(filter_directives(o, total))
}

fn overlay_string(img: &ImageOverlay) -> (r: String)
    ensures
        r@ == overlay_text(*img),
{
    let mut pos = text_of("overlay=x=");
    pos.append(or_default_str(&img.x, "0"));
    pos.append(":y=");
    pos.append(or_default_str(&img.y, "0"));
    pos.append("[outv]");
    if img.opacity != 1000 {
        let mut s = text_of("[1:v]format=rgba,colorchannelmixer=aa=");
        s.append(render_centi(round_div(img.opacity as i64, 10)).as_str());
        s.append("[ovr];[v1][ovr]");
        s.append(pos.as_str());
        s
    } else {
        let mut s = text_of("[v1][1:v]");
        s.append(pos.as_str());
        s
    }
}

fn push_audio_front(v: &mut Vec<String>, o: &ConvertOptions)
    ensures
        texts(final(v)@) == texts(old(v)@) + denoise_audio_stages(*o) + tempo_stages(*o)
            + volume_stages(*o),
{
    let ghost start = texts(v@);
    if let Some(a) = &o.audio_filters {
        if a.noise_reduction {
            let l = round_div(a.noise_reduction_strength as i64 * 3, 100);
            let l = if l < 10 { 10 } else { l };
            let mut s = text_of("afftdn=nr=");
            s.append(render_centi(l).as_str());
            push_text(v, s);
        }
    }
    let ghost s1 = start + denoise_audio_stages(*o);
    assert(texts(v@) =~= s1);
    if let Some(sp) = o.playback_speed {
        if sp > 0 && sp != 1000 {
            push_text(v, prefixed_milli("atempo=", sp as i64));
        }
    }
    let ghost s2 = s1 + tempo_stages(*o);
    assert(texts(v@) =~= s2);
    if let Some(vol) = o.audio_volume {
        if vol != 1000 {
            push_text(v, prefixed_milli("volume=", vol as i64));
        }
    }
    assert(texts(v@) =~= s2 + volume_stages(*o));
}

fn compressor_string(a: &AudioFilterSettings) -> (r: String)
    ensures
        r@ == compressor_text(*a),
{
    let mut s = prefixed_milli("acompressor=threshold=", a.compressor_threshold as i64);
    s.append("dB:ratio=");
    s.append(render_milli(a.compressor_ratio as i64).as_str());
    s.append(":attack=5:release=50");
    s
}

fn push_audio_back(v: &mut Vec<String>, o: &ConvertOptions, total: u64)
    ensures
        texts(final(v)@) == texts(old(v)@) + equalizer_stages(*o) + dynamics_stages(*o)
            + audio_fade_stages(*o, total),
{
    let ghost start = texts(v@);
    if let Some(a) = &o.audio_filters {
        if a.eq_enabled {
            push_text(v, prefixed_milli("equalizer=f=100:t=h:w=200:g=", a.bass_gain as i64));
            push_text(v, prefixed_milli("equalizer=f=1000:t=h:w=500:g=", a.mid_gain as i64));
            push_text(
                v,
                prefixed_milli("equalizer=f=10000:t=h:w=2000:g=", a.treble_gain as i64),
            );
        }
        let ghost s1 = start + equalizer_stages(*o);
        assert(texts(v@) =~= s1);
        if a.compressor_enabled {
            push_text(v, compressor_string(a));
        }
        let ghost s2 = s1 + opt(a.compressor_enabled, compressor_text(*a));
        assert(texts(v@) =~= s2);
        if a.normalize {
            let mut s = prefixed_milli("loudnorm=I=", a.target_lufs as i64);
            s.append(":TP=-1.5:LRA=11");
            push_text(v, s);
        }
        let ghost s3 = s1 + dynamics_stages(*o);
        assert(texts(v@) =~= s3);
        if a.fade_in_duration > 0 {
            push_text(v, fade_in_string("afade", o, a.fade_in_duration));
        }
        assert(texts(v@) =~= s3 + opt(
            a.fade_in_duration > 0,
            fade_in_text("afade"@, *o, a.fade_in_duration as int),
        ));
        if a.fade_out_duration > 0 {
            push_text(v, fade_out_string("afade", o, total, a.fade_out_duration));
        }
    }
    assert(texts(v@) =~= start + equalizer_stages(*o) + dynamics_stages(*o) + audio_fade_stages(
        *o,
        total,
    ));
}

/// The audio filter stages of a job, in order.
pub fn audio_filter_stages(o: &ConvertOptions, total: u64) -> (r: Vec<String>)
    ensures
        texts(r@) == audio_stages(*o, total),
{
    let mut v: Vec<String> = Vec::new();
    assert(texts(v@) =~= Seq::<Seq<char>>::empty());
    push_audio_front(&mut v, o);
    push_audio_back(&mut v, o, total);
    assert(texts(v@) =~= audio_stages(*o, total));
    v
}

proof fn lemma_flatten_push(d: Seq<(Seq<char>, Seq<char>)>, p: (Seq<char>, Seq<char>))
    ensures
        flatten(d.push(p)) == flatten(d) + seq![p.0, p.1],
{
    assert(d.push(p).drop_last() =~= d);
}

proof fn lemma_flatten_concat(a: Seq<(Seq<char>, Seq<char>)>, b: Seq<(Seq<char>, Seq<char>)>)
    ensures
        flatten(a + b) == flatten(a) + flatten(b),
    decreases b.len(),
{
    if b.len() == 0 {
        assert(a + b =~= a);
        assert(flatten(a) + flatten(b) =~= flatten(a));
    } else {
        assert((a + b).drop_last() =~= a + b.drop_last());
        lemma_flatten_concat(a, b.drop_last());
        assert(flatten(a + b) =~= flatten(a) + flatten(b));
    }
}

/// Builds the filter arguments of a job against the source's total duration
/// (thousandths of a second), and tells whether they use a complex graph.
pub fn build_filter_chain(options: &ConvertOptions, total_duration: u64) -> (r: (
    Vec<String>,
    bool,
))
    ensures
        texts(r.0@) == filter_args(*options, total_duration),
        r.1 == (image_of(*options) is Some),
{
    let o = options;
    let ghost dirs = filter_directives(*o, total_duration);
    let vf = video_filter_stages(o, total_duration);
    let mut args: Vec<String> = Vec::new();
    let mut uses_complex = false;
    let image = match &o.overlays {
        Some(ov) => ov.image.as_ref(),
        None => None,
    };
    let ghost d0 = video_directives(*o, total_duration);
    match image {
        Some(img) => {
            let chain = if vf.len() == 0 {
                text_of("null")
            } else {
                join_texts(&vf, ",")
            };
            let mut g = text_of("[0:v]");
            g.append(chain.as_str());
            g.append("[v1];");
            g.append(overlay_string(img).as_str());
            push_pair(&mut args, "-filter_complex", g);
            push_pair(&mut args, "-map", text_of("[outv]"));
            uses_complex = true;
            proof {
                lemma_flatten_push(seq![], d0[0]);
                lemma_flatten_push(seq![d0[0]], d0[1]);
                assert(seq![d0[0]].push(d0[1]) =~= d0);
                assert(seq![d0[0]] =~= Seq::<(Seq<char>, Seq<char>)>::empty().push(d0[0]));
            }
        },
        None => {
            if vf.len() > 0 {
                push_pair(&mut args, "-vf", join_texts(&vf, ","));
                proof {
                    lemma_flatten_push(seq![], d0[0]);
                    assert(Seq::<(Seq<char>, Seq<char>)>::empty().push(d0[0]) =~= d0);
                }
            }
        },
    }
    assert(texts(args@) =~= flatten(d0));
    let af = audio_filter_stages(o, total_duration);
    let ghost d1 = if af@.len() == 0 {
        Seq::<(Seq<char>, Seq<char>)>::empty()
    } else {
        seq![("-af"@, join(texts(af@), ","@))]
    };
    if af.len() > 0 {
        push_pair(&mut args, "-af", join_texts(&af, ","));
        proof {
            lemma_flatten_push(seq![], d1[0]);
            assert(Seq::<(Seq<char>, Seq<char>)>::empty().push(d1[0]) =~= d1);
        }
    }
    proof {
        lemma_flatten_concat(d0, d1);
    }
    assert(texts(args@) =~= flatten(d0 + d1));
    let ghost d2 = if image_of(*o) is Some && !o.audio_only {
        seq![("-map"@, "0:a"@)]
    } else {
        Seq::<(Seq<char>, Seq<char>)>::empty()
    };
    if image.is_some() && !o.audio_only {
        push_pair(&mut args, "-map", text_of("0:a"));
        proof {
            lemma_flatten_push(seq![], d2[0]);
            assert(Seq::<(Seq<char>, Seq<char>)>::empty().push(d2[0]) =~= d2);
        }
    }
    proof {
        lemma_flatten_concat(d0 + d1, d2);
    }
    let ghost d3 = if o.extract_thumbnail == Some(true) {
        seq![("-vframes"@, "1"@)]
    } else {
        Seq::<(Seq<char>, Seq<char>)>::empty()
    };
    if o.extract_thumbnail == Some(true) {
        push_pair(&mut args, "-vframes", text_of("1"));
        proof {
            lemma_flatten_push(seq![], d3[0]);
            assert(Seq::<(Seq<char>, Seq<char>)>::empty().push(d3[0]) =~= d3);
        }
    }
    proof {
        lemma_flatten_concat(d0 + d1 + d2, d3);
        assert(dirs == d0 + d1 + d2 + d3);
    }
    (args, uses_complex)
}

/// The argument list is a function of the settings and the total duration:
/// the same job always gets the same arguments.
pub proof fn filter_chain_deterministic_law(a: ConvertOptions, b: ConvertOptions, total: u64)
    requires
        a == b,
    ensures
        filter_args(a, total) == filter_args(b, total),
{
}

/// Color settings whose optional stages are all off add the combined color
/// adjustment and nothing else.
pub proof fn neutral_color_law(f: FilterSettings)
    requires
        f.hue == 0,
        f.blur <= 0,
        f.sharpen <= 0,
        !f.vignette,
    ensures
        color_stages_of(f) == seq![eq_text(f)],
{
    assert(color_stages_of(f) =~= seq![eq_text(f)]);
}

/// A job whose only settings are color settings with every optional stage off.
pub open spec fn only_neutral_color(o: ConvertOptions, f: FilterSettings) -> bool {
    &&& o.filters == Some(f)
    &&& f.hue == 0 && f.blur <= 0 && f.sharpen <= 0 && !f.vignette
    &&& o.video_transform is None
    &&& o.audio_filters is None
    &&& o.overlays is None
    &&& o.subtitle_path is None
    &&& o.width is None && o.height is None
    &&& o.playback_speed is None
    &&& o.audio_volume is None
    &&& o.export_gif != Some(true)
    &&& o.extract_thumbnail != Some(true)
}

/// Such a job gets one simple video directive holding exactly one stage, the
/// combined color adjustment.
pub proof fn neutral_job_law(o: ConvertOptions, f: FilterSettings, total: u64)
    requires
        only_neutral_color(o, f),
    ensures
        video_stages(o, total) == seq![eq_text(f)],
        filter_args(o, total) == seq!["-vf"@, eq_text(f)],
{
    neutral_color_law(f);
    assert(video_stages(o, total) =~= seq![eq_text(f)]);
    assert(audio_stages(o, total) =~= Seq::<Seq<char>>::empty());
    let d = filter_directives(o, total);
    assert(join(seq![eq_text(f)], ","@) == eq_text(f));
    assert(d =~= seq![("-vf"@, eq_text(f))]);
    lemma_flatten_push(Seq::empty(), ("-vf"@, eq_text(f)));
    assert(Seq::<(Seq<char>, Seq<char>)>::empty().push(("-vf"@, eq_text(f))) =~= d);
    assert(filter_args(o, total) =~= seq!["-vf"@, eq_text(f)]);
}

/// The width the crop expression `in_w-left-right` gives on a source `in_w`
/// wide, and likewise the height.
pub open spec fn crop_width(t: VideoTransformSettings, in_w: nat) -> int {
    in_w - t.crop_left - t.crop_right
}

pub open spec fn crop_height(t: VideoTransformSettings, in_h: nat) -> int {
    in_h - t.crop_top - t.crop_bottom
}

/// An enabled crop emits exactly the expression of its four insets, and on a
/// source larger than the insets its dimensions are not negative.
pub proof fn crop_law(o: ConvertOptions, t: VideoTransformSettings, in_w: nat, in_h: nat)
    requires
        o.video_transform == Some(t),
        t.crop_enabled,
        t.crop_left + t.crop_right <= in_w,
        t.crop_top + t.crop_bottom <= in_h,
    ensures
        crop_stages(o) == seq![crop_text(t)],
        crop_width(t, in_w) >= 0,
        crop_height(t, in_h) >= 0,
{
}

/// A fade-out starts at the output span less its duration, or at 0 where the
/// duration is longer than the span: never before 0.
pub proof fn fade_out_start_law(o: ConvertOptions, total: u64, d: int)
    ensures
        fade_out_start(o, total, d) >= 0,
        trim_end(o, total) - trim_start(o) - d >= 0 ==> fade_out_start(o, total, d) == trim_end(
            o,
            total,
        ) - trim_start(o) - d,
        trim_end(o, total) - trim_start(o) - d < 0 ==> fade_out_start(o, total, d) == 0,
{
}

/// With an image overlay the job goes through a complex graph and selects the
/// composited label `[outv]`; without one no complex graph is emitted.
pub proof fn overlay_routing_law(o: ConvertOptions, total: u64)
    ensures
        image_of(o) is Some ==> filter_directives(o, total)[0].0 == "-filter_complex"@
            && filter_directives(o, total)[1] == ("-map"@, "[outv]"@),
        image_of(o) is None ==> forall|i: int|
            0 <= i < filter_directives(o, total).len() ==> (#[trigger] filter_directives(
                o,
                total,
            )[i]).0 != "-filter_complex"@,
{
    reveal_strlit("-filter_complex");
    reveal_strlit("-vf");
    reveal_strlit("-af");
    reveal_strlit("-map");
    reveal_strlit("-vframes");
    let d = filter_directives(o, total);
    if image_of(o) is None {
        assert forall|i: int| 0 <= i < d.len() implies (#[trigger] d[i]).0 != "-filter_complex"@ by {
            let f = d[i].0;
            assert(f == "-vf"@ || f == "-af"@ || f == "-map"@ || f == "-vframes"@);
            assert(f.len() != "-filter_complex"@.len());
        }
    }
}

} // verus!
