use ffmpeg_editor::filters::build_filter_chain;
use ffmpeg_editor::invocation::{
    build_concat_list, build_convert_args, build_merge_args, build_preview_args,
};
use ffmpeg_editor::models::{
    AudioFilterSettings, ConvertOptions, FilterSettings, ImageOverlay, OverlaySettings,
    TextOverlay, VideoTransformSettings,
};

fn options() -> ConvertOptions {
    ConvertOptions {
        input: "in.mp4".to_string(),
        output: "out.mp4".to_string(),
        video_codec: None,
        audio_codec: None,
        crf: None,
        preset: None,
        start_time: None,
        end_time: None,
        width: None,
        height: None,
        audio_only: false,
        subtitle_path: None,
        merge_files: None,
        filters: None,
        overlays: None,
        audio_volume: None,
        playback_speed: None,
        export_gif: None,
        extract_thumbnail: None,
        hw_accel: None,
        audio_filters: None,
        video_transform: None,
    }
}

fn neutral_filters() -> FilterSettings {
    FilterSettings {
        brightness: 0,
        contrast: 0,
        saturation: 0,
        blur: 0,
        sharpen: 0,
        gamma: 0,
        hue: 0,
        vignette: false,
        vignette_strength: 0,
    }
}

fn transform() -> VideoTransformSettings {
    VideoTransformSettings {
        rotation: 0,
        crop_enabled: false,
        crop_top: 0,
        crop_bottom: 0,
        crop_left: 0,
        crop_right: 0,
        flip_horizontal: false,
        flip_vertical: false,
        deinterlace: false,
        denoise: false,
        denoise_strength: 0,
        fade_in_duration: 0,
        fade_out_duration: 0,
    }
}

fn audio() -> AudioFilterSettings {
    AudioFilterSettings {
        normalize: false,
        target_lufs: -16_000,
        eq_enabled: false,
        bass_gain: 0,
        mid_gain: 0,
        treble_gain: 0,
        noise_reduction: false,
        noise_reduction_strength: 0,
        compressor_enabled: false,
        compressor_threshold: -20_000,
        compressor_ratio: 4_000,
        fade_in_duration: 0,
        fade_out_duration: 0,
    }
}

#[test]
fn empty_options_give_no_arguments() {
    let (args, complex) = build_filter_chain(&options(), 10_000);
    assert!(args.is_empty());
    assert!(!complex);
}

#[test]
fn speed_two_halves_timestamps_and_doubles_tempo() {
    let mut o = options();
    o.playback_speed = Some(2_000);
    let (args, complex) = build_filter_chain(&o, 10_000);
    assert_eq!(args, vec!["-vf", "setpts=0.5*PTS", "-af", "atempo=2"]);
    assert!(!complex);
}

#[test]
fn unit_speed_and_volume_add_nothing() {
    let mut o = options();
    o.playback_speed = Some(1_000);
    o.audio_volume = Some(1_000);
    let (args, _) = build_filter_chain(&o, 10_000);
    assert!(args.is_empty());
    o.audio_volume = Some(1_500);
    let (args, _) = build_filter_chain(&o, 10_000);
    assert_eq!(args, vec!["-af", "volume=1.5"]);
}

#[test]
fn neutral_filters_give_one_color_stage() {
    let mut o = options();
    o.filters = Some(neutral_filters());
    let (args, _) = build_filter_chain(&o, 10_000);
    assert_eq!(args, vec!["-vf", "eq=brightness=0:contrast=0:saturation=0:gamma=0"]);
}

#[test]
fn color_stages_in_order() {
    let mut f = neutral_filters();
    f.brightness = 100;
    f.contrast = 1_200;
    f.saturation = 1_000;
    f.gamma = 1_000;
    f.hue = -45_000;
    f.blur = 2_000;
    f.sharpen = 1_500;
    f.vignette = true;
    f.vignette_strength = 1_000;
    let mut o = options();
    o.filters = Some(f);
    let (args, _) = build_filter_chain(&o, 10_000);
    assert_eq!(
        args[1],
        "eq=brightness=0.1:contrast=1.2:saturation=1:gamma=1,hue=h=-45,boxblur=2,unsharp=5:5:1.5,vignette=a=1.571"
    );
}

#[test]
fn transform_stages_in_order() {
    let mut t = transform();
    t.deinterlace = true;
    t.denoise = true;
    t.denoise_strength = 5;
    t.rotation = 180;
    t.crop_enabled = true;
    t.crop_left = 10;
    t.crop_right = 20;
    t.crop_top = 30;
    t.crop_bottom = 40;
    t.flip_horizontal = true;
    t.flip_vertical = true;
    let mut o = options();
    o.video_transform = Some(t);
    o.width = Some(1280);
    let (args, _) = build_filter_chain(&o, 10_000);
    assert_eq!(
        args,
        vec![
            "-vf",
            "yadif,hqdn3d=luma_tmp=2.5,transpose=2,transpose=2,crop=in_w-10-20:in_h-30-40:10:30,scale=1280:-1,hflip,vflip"
        ]
    );
}

#[test]
fn rotations() {
    for (deg, stage) in [(90u16, "transpose=1"), (270u16, "transpose=2")] {
        let mut t = transform();
        t.rotation = deg;
        let mut o = options();
        o.video_transform = Some(t);
        let (args, _) = build_filter_chain(&o, 0);
        assert_eq!(args, vec!["-vf", stage]);
    }
}

#[test]
fn fade_out_never_starts_before_zero() {
    let mut t = transform();
    t.fade_out_duration = 8_000;
    let mut o = options();
    o.video_transform = Some(t);
    o.start_time = Some(10_000);
    o.end_time = Some(15_000);
    let (args, _) = build_filter_chain(&o, 60_000);
    assert_eq!(args, vec!["-vf", "fade=t=out:st=0:d=8"]);
}

#[test]
fn fades_follow_the_trim_window() {
    let mut t = transform();
    t.fade_in_duration = 1_000;
    t.fade_out_duration = 2_000;
    let mut a = audio();
    a.fade_in_duration = 500;
    a.fade_out_duration = 1_500;
    let mut o = options();
    o.video_transform = Some(t);
    o.audio_filters = Some(a);
    o.start_time = Some(2_000);
    let (args, _) = build_filter_chain(&o, 12_500);
    assert_eq!(
        args,
        vec![
            "-vf",
            "fade=t=in:st=2:d=1,fade=t=out:st=8.5:d=2",
            "-af",
            "afade=t=in:st=2:d=0.5,afade=t=out:st=9:d=1.5"
        ]
    );
}

#[test]
fn subtitles_and_text_are_escaped() {
    let mut o = options();
    o.subtitle_path = Some("C:\\subs\\a.srt".to_string());
    o.overlays = Some(OverlaySettings {
        text: Some(TextOverlay {
            content: "It's 10:30".to_string(),
            font_size: 24,
            color: "white".to_string(),
            x: "".to_string(),
            y: "h-50".to_string(),
        }),
        image: None,
    });
    let (args, complex) = build_filter_chain(&o, 0);
    assert!(!complex);
    assert_eq!(
        args[1],
        "subtitles='C\\:/subs/a.srt',drawtext=text='It'\\''s 10\\:30':fontsize=24:fontcolor=white:x=10:y=h-50"
    );
}

#[test]
fn gif_export_is_the_last_video_stage() {
    let mut o = options();
    o.export_gif = Some(true);
    o.height = Some(720);
    let (args, _) = build_filter_chain(&o, 0);
    assert_eq!(
        args[1],
        "scale=-1:720,fps=15,scale=480:-1:flags=lanczos,split[s0][s1];[s0]palettegen[p];[s1][p]paletteuse"
    );
}

#[test]
fn image_overlay_uses_complex_graph() {
    let mut o = options();
    o.overlays = Some(OverlaySettings {
        text: None,
        image: Some(ImageOverlay {
            path: "logo.png".to_string(),
            x: "".to_string(),
            y: "".to_string(),
            opacity: 1_000,
        }),
    });
    let (args, complex) = build_filter_chain(&o, 0);
    assert!(complex);
    assert_eq!(
        args,
        vec![
            "-filter_complex",
            "[0:v]null[v1];[v1][1:v]overlay=x=0:y=0[outv]",
            "-map",
            "[outv]",
            "-map",
            "0:a"
        ]
    );
}

#[test]
fn translucent_overlay_scales_alpha() {
    let mut o = options();
    o.audio_only = true;
    o.width = Some(640);
    o.overlays = Some(OverlaySettings {
        text: None,
        image: Some(ImageOverlay {
            path: "logo.png".to_string(),
            x: "W-w".to_string(),
            y: "5".to_string(),
            opacity: 505,
        }),
    });
    let (args, complex) = build_filter_chain(&o, 0);
    assert!(complex);
    assert_eq!(
        args,
        vec![
            "-filter_complex",
            "[0:v]scale=640:-1[v1];[1:v]format=rgba,colorchannelmixer=aa=0.51[ovr];[v1][ovr]overlay=x=W-w:y=5[outv]",
            "-map",
            "[outv]"
        ]
    );
}

#[test]
fn audio_stages_in_order() {
    let mut a = audio();
    a.noise_reduction = true;
    a.noise_reduction_strength = 50_000;
    a.eq_enabled = true;
    a.bass_gain = 3_000;
    a.mid_gain = -1_500;
    a.treble_gain = 0;
    a.compressor_enabled = true;
    a.normalize = true;
    let mut o = options();
    o.audio_filters = Some(a);
    o.audio_volume = Some(800);
    o.playback_speed = Some(1_250);
    let (args, _) = build_filter_chain(&o, 0);
    assert_eq!(args[0], "-vf");
    assert_eq!(args[1], "setpts=0.8*PTS");
    assert_eq!(
        args[3],
        "afftdn=nr=15.00,atempo=1.25,volume=0.8,equalizer=f=100:t=h:w=200:g=3,equalizer=f=1000:t=h:w=500:g=-1.5,equalizer=f=10000:t=h:w=2000:g=0,acompressor=threshold=-20dB:ratio=4:attack=5:release=50,loudnorm=I=-16:TP=-1.5:LRA=11"
    );
}

#[test]
fn weak_noise_reduction_has_a_floor() {
    let mut a = audio();
    a.noise_reduction = true;
    a.noise_reduction_strength = 0;
    let mut o = options();
    o.audio_filters = Some(a);
    o.extract_thumbnail = Some(true);
    let (args, _) = build_filter_chain(&o, 0);
    assert_eq!(args, vec!["-af", "afftdn=nr=0.10", "-vframes", "1"]);
}

#[test]
fn same_options_same_arguments() {
    let mut o = options();
    o.filters = Some(neutral_filters());
    o.playback_speed = Some(3_000);
    let a = build_filter_chain(&o, 5_000);
    let b = build_filter_chain(&o.clone(), 5_000);
    assert_eq!(a, b);
    assert_eq!(a.0[1], "setpts=0.333*PTS,eq=brightness=0:contrast=0:saturation=0:gamma=0");
}

#[test]
fn convert_arguments() {
    let mut o = options();
    o.hw_accel = Some(true);
    o.start_time = Some(1_234);
    o.end_time = Some(5_005);
    o.video_codec = Some("libx264".to_string());
    o.crf = Some(23);
    o.preset = Some("fast".to_string());
    o.playback_speed = Some(2_000);
    let args = build_convert_args(&o, 10_000);
    assert_eq!(
        args,
        vec![
            "-hwaccel", "auto", "-y", "-i", "in.mp4", "-ss", "1.23", "-to", "5.01", "-c:v",
            "libx264", "-crf", "23", "-preset", "fast", "-vf", "setpts=0.5*PTS", "-af",
            "atempo=2", "-progress", "pipe:1", "out.mp4"
        ]
    );
}

#[test]
fn preview_drops_audio_arguments() {
    let mut o = options();
    o.playback_speed = Some(2_000);
    o.audio_volume = Some(500);
    let args = build_preview_args(&o, 1_500);
    assert_eq!(
        args,
        vec![
            "-y", "-ss", "1.500", "-i", "in.mp4", "-vf", "setpts=0.5*PTS", "-vframes", "1", "-f",
            "image2", "-"
        ]
    );
}

#[test]
fn concat_list_escapes_quotes() {
    let files = vec!["a.mp4".to_string(), "it's.mp4".to_string()];
    assert_eq!(build_concat_list(&files), "file 'a.mp4'\nfile 'it'\\''s.mp4'\n");
    assert_eq!(
        build_merge_args("/tmp/list.txt", "out.mp4"),
        vec!["-f", "concat", "-safe", "0", "-i", "/tmp/list.txt", "-c", "copy", "-y", "out.mp4"]
    );
}
