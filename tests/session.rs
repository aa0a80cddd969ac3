use ffmpeg_editor::session::{final_progress, next_state, on_line, JobEvent, JobState, LineStep};
use ffmpeg_editor::text::{render_centi, render_milli, render_milli_fixed, render_nat, round_div};

#[test]
fn cancellation_wins_over_a_line() {
    let step = on_line(true, "frame=1 time=00:00:01.00", 10_000);
    assert!(matches!(step, LineStep::Cancel));
    let s = next_state(JobState::Running, JobEvent::Line { cancel_requested: true });
    assert_eq!(s, JobState::Cancelled);
    let s = next_state(s, JobEvent::Exit { cancel_requested: false, success: true });
    assert_eq!(s, JobState::Cancelled);
}

#[test]
fn lines_report_or_skip() {
    match on_line(false, "time=00:00:05.00 speed=1x", 10_000) {
        LineStep::Report(p) => {
            assert_eq!(p.percent, 50_000);
            assert_eq!(p.speed, "1x");
        }
        _ => panic!("expected a report"),
    }
    assert!(matches!(on_line(false, "Stream #0:0", 10_000), LineStep::Skip));
}

#[test]
fn exit_outcomes() {
    let ok = next_state(JobState::Running, JobEvent::Exit { cancel_requested: false, success: true });
    assert_eq!(ok, JobState::Succeeded);
    let bad = next_state(JobState::Running, JobEvent::Exit { cancel_requested: false, success: false });
    assert_eq!(bad, JobState::Failed);
    let late = next_state(JobState::Running, JobEvent::Exit { cancel_requested: true, success: false });
    assert_eq!(late, JobState::Cancelled);
    let p = final_progress(12_000);
    assert_eq!((p.percent, p.time, p.speed.as_str(), p.size.as_str()), (100_000, 12_000, "Done", "Complete"));
}

#[test]
fn decimal_rendering() {
    assert_eq!(render_milli(2_500), "2.5");
    assert_eq!(render_milli(-125), "-0.125");
    assert_eq!(render_milli(0), "0");
    assert_eq!(render_milli(1_010), "1.01");
    assert_eq!(render_centi(10), "0.10");
    assert_eq!(render_centi(-250), "-2.50");
    assert_eq!(render_milli_fixed(7), "0.007");
    assert_eq!(render_milli(i64::MIN), "-9223372036854775.808");
    assert_eq!(render_nat(u64::MAX), "18446744073709551615");
    assert_eq!(round_div(15, 10), 2);
    assert_eq!(round_div(-15, 10), -2);
    assert_eq!(round_div(14, 10), 1);
}
