use ffmpeg_editor::progress::{parse_duration, parse_progress};

#[test]
fn test_parse_duration() {
    let output = "Duration: 00:01:30.50, start: 0.000000, bitrate: 128 kb/s";
    let duration = parse_duration(output) as f64 / 1000.0;
    assert!((duration - 90.5).abs() < f64::EPSILON);

    let output_invalid = "No duration line here";
    assert_eq!(parse_duration(output_invalid), 0);
}

#[test]
fn test_parse_progress() {
    let line = "frame= 100 fps= 25 q=28.0 size= 1024kB time=00:00:10.00 bitrate= 838.9kbits/s speed=1.5x";
    let duration = 20_000;
    let progress = parse_progress(line, duration).unwrap();

    assert!((progress.percent as f64 / 1000.0 - 50.0).abs() < f64::EPSILON);
    assert!((progress.time as f64 / 1000.0 - 10.0).abs() < f64::EPSILON);
    assert_eq!(progress.speed, "1.5x");
    assert_eq!(progress.size, "1024kB");

    let line_invalid = "Some random buffer output";
    assert!(parse_progress(line_invalid, duration).is_none());
}
