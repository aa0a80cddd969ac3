use ffmpeg_editor::probe::{media_info_from_probe, ProbeStream};

fn stream(kind: &str, codec: &str, w: Option<u64>, h: Option<u64>) -> ProbeStream {
    ProbeStream {
        codec_type: Some(kind.to_string()),
        codec_name: Some(codec.to_string()),
        width: w,
        height: h,
    }
}

#[test]
fn media_info_from_fields() {
    let streams = vec![
        stream("video", "h264", Some(1920), Some(1080)),
        stream("audio", "aac", None, None),
        stream("data", "bin", None, None),
    ];
    let info = media_info_from_probe(
        "/videos/clip.final.mp4",
        &Some("12.345678".to_string()),
        &Some("128000".to_string()),
        &streams,
    );
    assert_eq!(info.duration, 12_345);
    assert_eq!(info.bitrate, Some(128_000));
    assert_eq!(info.width, Some(1920));
    assert_eq!(info.height, Some(1080));
    assert_eq!(info.codec.as_deref(), Some("h264"));
    assert_eq!(info.audio_codec.as_deref(), Some("aac"));
    assert_eq!(info.format.as_deref(), Some("MP4"));
}

#[test]
fn media_info_defaults() {
    let info = media_info_from_probe("noext", &Some("N/A".to_string()), &Some("12k".to_string()), &vec![]);
    assert_eq!(info.duration, 0);
    assert_eq!(info.bitrate, None);
    assert_eq!(info.width, None);
    assert_eq!(info.codec, None);
    assert_eq!(info.audio_codec, None);
    assert_eq!(info.format.as_deref(), Some("NOEXT"));
    let info = media_info_from_probe("a.mkv", &Some("7".to_string()), &None, &vec![]);
    assert_eq!(info.duration, 7_000);
    assert_eq!(info.format.as_deref(), Some("MKV"));
}

#[test]
fn last_video_stream_wins() {
    let streams = vec![
        stream("video", "h264", Some(640), Some(480)),
        stream("video", "mjpeg", None, Some(300)),
    ];
    let info = media_info_from_probe("x.mp4", &None, &None, &streams);
    assert_eq!(info.width, None);
    assert_eq!(info.height, Some(300));
    assert_eq!(info.codec.as_deref(), Some("mjpeg"));
}
