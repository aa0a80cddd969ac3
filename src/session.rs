//! The decisions of a running job.
//!
//! The caller runs the external tool; each time it reads a status line or
//! sees the tool exit, it hands the event here together with the state of
//! the cancellation flag at that moment, and performs the step returned.
use vstd::prelude::*;
use vstd::string::StringExecFns;
use crate::progress::{parse_progress, percent_millis, progress_size, progress_speed, progress_time, Progress};

verus! {

/// Where a job stands.
#[derive(Clone, Copy, Debug, PartialEq, Eq, Structural)]
pub enum JobState {
    Running,
    Succeeded,
    Failed,
    Cancelled,
}

/// What a running job observes: a status line read, or the tool's exit;
/// each with whether cancellation had been requested by then.
#[derive(Clone, Copy, Debug, PartialEq, Eq, Structural)]
pub enum JobEvent {
    Line { cancel_requested: bool },
    Exit { cancel_requested: bool, success: bool },
}

/// The state after an event. Cancellation wins over everything else, a late
/// failing exit included; an ended job stays as it ended.
pub open spec fn step(s: JobState, e: JobEvent) -> JobState {
    if s != JobState::Running {
        s
    } else {
        match e {
            JobEvent::Line { cancel_requested } => if cancel_requested {
                JobState::Cancelled
            } else {
                JobState::Running
            },
            JobEvent::Exit { cancel_requested, success } => if cancel_requested {
                JobState::Cancelled
            } else if success {
                JobState::Succeeded
            } else {
                JobState::Failed
            },
        }
    }
}

/// The state after a sequence of events.
pub open spec fn run(s: JobState, es: Seq<JobEvent>) -> JobState
    decreases es.len(),
{
    if es.len() == 0 {
        s
    } else {
        run(step(s, es[0]), es.drop_first())
    }
}

/// Computes `step`.
pub fn next_state(s: JobState, e: JobEvent) -> (r: JobState)
    ensures
        r == step(s, e),
{
    if s != JobState::Running {
        return s;
    }
    match e {
        JobEvent::Line { cancel_requested } => if cancel_requested {
            JobState::Cancelled
        } else {
            JobState::Running
        },
        JobEvent::Exit { cancel_requested, success } => if cancel_requested {
            JobState::Cancelled
        } else if success {
            JobState::Succeeded
        } else {
            JobState::Failed
        },
    }
}

/// What to do with a status line.
#[derive(Debug)]
pub enum LineStep {
    /// Kill the tool and report the job cancelled.
    Cancel,
    /// Emit this progress record.
    Report(Progress),
    /// Drop the line.
    Skip,
}

/// Decides on a status line read while the job runs: cancel where the flag
/// is set, else report the progress it carries, else drop it.
pub fn on_line(cancel_requested: bool, line: &str, total: u64) -> (r: LineStep)
    ensures
        cancel_requested ==> r is Cancel,
        !cancel_requested ==> match r {
            LineStep::Cancel => false,
            LineStep::Skip => progress_time(line@) is None,
            LineStep::Report(p) => {
                &&& progress_time(line@) == Some(p.time as nat)
                &&& p.percent == percent_millis(p.time as nat, total as nat)
                &&& p.speed@ == progress_speed(line@)
                &&& p.size@ == progress_size(line@)
            },
        },
{
    if cancel_requested {
        return LineStep::Cancel;
    }
    match parse_progress(line, total) {
        Some(p) => LineStep::Report(p),
        None => LineStep::Skip,
    }
}

/// The record emitted when a job succeeds: 100 % at the total duration.
pub fn final_progress(total: u64) -> (r: Progress)
    ensures
        r.percent == 100_000,
        r.time == total,
        r.speed@ == "Done"@,
        r.size@ == "Complete"@,
{
    Progress {
        percent: 100_000,
        time: total,
        speed: String::from_str("Done"),
        size: String::from_str("Complete"),
    }
}

proof fn lemma_ended_stays(s: JobState, es: Seq<JobEvent>)
    requires
        s != JobState::Running,
    ensures
        run(s, es) == s,
    decreases es.len(),
{
    if es.len() > 0 {
        lemma_ended_stays(s, es.drop_first());
    }
}

proof fn lemma_lines_keep_open(es: Seq<JobEvent>, i: int)
    requires
        0 <= i <= es.len(),
        forall|j: int| 0 <= j < i ==> (#[trigger] es[j]) is Line,
    ensures
        run(JobState::Running, es) == run(run(JobState::Running, es.take(i)), es.skip(i)),
        run(JobState::Running, es.take(i)) == JobState::Running || run(
            JobState::Running,
            es.take(i),
        ) == JobState::Cancelled,
    decreases i,
{
    if i > 0 {
        let s1 = step(JobState::Running, es[0]);
        let rest = es.drop_first();
        assert(es.take(i).drop_first() =~= rest.take(i - 1));
        assert(es.skip(i) =~= rest.skip(i - 1));
        if s1 == JobState::Running {
            lemma_lines_keep_open(rest, i - 1);
        } else {
            lemma_ended_stays(s1, rest);
            lemma_ended_stays(s1, rest.take(i - 1));
            lemma_ended_stays(s1, rest.skip(i - 1));
        }
    } else {
        assert(es.skip(0) =~= es);
    }
}

/// Once cancellation has been requested while the tool still runs, the next
/// line read ends the job as cancelled, whatever follows: never in success.
pub proof fn cancellation_law(es: Seq<JobEvent>, i: int)
    requires
        0 <= i < es.len(),
        forall|j: int| 0 <= j < i ==> (#[trigger] es[j]) is Line,
        es[i] == (JobEvent::Line { cancel_requested: true }),
    ensures
        run(JobState::Running, es) == JobState::Cancelled,
{
    lemma_lines_keep_open(es, i);
    let s = run(JobState::Running, es.take(i));
    let rest = es.skip(i);
    assert(rest[0] == es[i]);
    if s == JobState::Running {
        lemma_ended_stays(JobState::Cancelled, rest.drop_first());
    } else {
        lemma_ended_stays(s, rest);
    }
}

} // verus!
