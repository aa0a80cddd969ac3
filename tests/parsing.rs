use ffmpeg_editor::progress::{parse_duration, parse_progress};
use ffmpeg_editor::download::{download_result, parse_download_line};

#[test]
fn duration_hours_minutes_seconds() {
    assert_eq!(parse_duration("  Duration: 01:02:03.45, start"), 3_723_450);
    assert_eq!(parse_duration("Duration: 00:00:07, x"), 7_000);
    assert_eq!(parse_duration("Duration: 00:00:07.123456"), 7_123);
}

#[test]
fn duration_skips_malformed_header() {
    assert_eq!(parse_duration("Duration: N/A Duration: 00:00:02.5"), 2_500);
    assert_eq!(parse_duration("Duration: 1:2"), 0);
    assert_eq!(parse_duration(""), 0);
}

#[test]
fn duration_too_large_is_unknown() {
    assert_eq!(parse_duration("Duration: 99999999999999999999:00:00.00"), 0);
}

#[test]
fn progress_percent_is_clamped() {
    let p = parse_progress("time=00:00:30.00", 20_000).unwrap();
    assert_eq!(p.percent, 100_000);
    assert_eq!(p.time, 30_000);
}

#[test]
fn progress_unknown_total_gives_zero_percent() {
    let p = parse_progress("time=00:00:05.00 speed= 2.0x", 0).unwrap();
    assert_eq!(p.percent, 0);
    assert_eq!(p.speed, "2.0x");
    assert_eq!(p.size, "0kB");
}

#[test]
fn progress_defaults_without_speed() {
    let p = parse_progress("size=   256kB time=00:01:00.00 speed=N/A", 240_000).unwrap();
    assert_eq!(p.speed, "N/A");
    assert_eq!(p.size, "256kB");
    assert_eq!(p.percent, 25_000);
}

#[test]
fn progress_needs_time_token() {
    assert!(parse_progress("frame= 1 size= 1kB speed=1x", 1000).is_none());
    assert!(parse_progress("time=N/A", 1000).is_none());
}

#[test]
fn download_percent_and_destination() {
    let d = parse_download_line("[download]  42.5% of 10.00MiB at 1.00MiB/s");
    assert_eq!(d.percent, Some(42_500));
    assert!(d.file.is_none());
    let d = parse_download_line("[download] Destination: C:\\out\\clip.mp4  ");
    assert_eq!(d.file.unwrap(), "C:\\out\\clip.mp4");
}

#[test]
fn download_already_and_merging() {
    let d = parse_download_line("[download] /tmp/a.mp4 has already been downloaded");
    assert_eq!(d.file.unwrap(), "/tmp/a.mp4");
    let d = parse_download_line("[download] Merging formats into \"/tmp/b.mkv\"");
    assert_eq!(d.file.unwrap(), "/tmp/b.mkv");
    let d = parse_download_line("[info] 50% Destination: x");
    assert!(d.percent.is_none() && d.file.is_none());
}

#[test]
fn download_result_without_file() {
    assert_eq!(download_result(""), "Download complete (check output folder)");
    assert_eq!(download_result("/tmp/c.mp4"), "/tmp/c.mp4");
}
